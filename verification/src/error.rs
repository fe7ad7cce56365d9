//! The conditions under which configuring or launching a machine fails.

use vstd::prelude::*;

verus! {

/// `std::io::Error`, the error that the operating system gives when a
/// process cannot be spawned or asked for its state. The library never looks
/// into such an error: it takes one in and hands the same one out.
#[verifier::external_type_specification]
#[verifier::external_body]
pub struct ExIoError(std::io::Error);

/// Why a builder or one of its settings could not be made.
#[derive(Debug)]
pub enum InitError {
    /// The emulator was found neither as given nor on the search path.
    ExecutableNotFound { executable: String },
    /// A setting was given too little to be written as an argument.
    InvalidConfig { msg: String },
}

/// An [`InitError`] with its texts as sequences of characters.
pub enum InitErrorView {
    ExecutableNotFound { executable: Seq<char> },
    InvalidConfig { msg: Seq<char> },
}

impl View for InitError {
    type V = InitErrorView;

    open spec fn view(&self) -> InitErrorView {
        match self {
            InitError::ExecutableNotFound { executable } => InitErrorView::ExecutableNotFound {
                executable: executable@,
            },
            InitError::InvalidConfig { msg } => InitErrorView::InvalidConfig { msg: msg@ },
        }
    }
}

impl InitErrorView {
    /// The sentence that describes the error.
    pub open spec fn text(self) -> Seq<char> {
        match self {
            InitErrorView::ExecutableNotFound { executable } =>
                "could not find QEMU executable: "@ + executable,
            InitErrorView::InvalidConfig { msg } => "invalid QEMU configuration: "@ + msg,
        }
    }
}

impl InitError {
    /// Describes the error in one sentence.
    pub fn to_string(&self) -> (text: String)
        ensures
            text@ == self@.text(),
    {
        match self {
            InitError::ExecutableNotFound { executable } => {
                let mut text = "could not find QEMU executable: ".to_owned();
                text.append(executable.as_str());
                text
            },
            InitError::InvalidConfig { msg } => {
                let mut text = "invalid QEMU configuration: ".to_owned();
                text.append(msg.as_str());
                text
            },
        }
    }
}

/// Why a machine could not be launched or an image not be created.
#[derive(Debug)]
pub enum Error {
    /// A value of the configuration failed a guard; the text names it.
    InvalidArgument(String),
    /// The operating system failed to spawn or to query a process.
    Io(std::io::Error),
    /// The emulator exited while its launch was still being checked.
    Runtime(String),
    /// The image tool reported a failure; the text is what it printed.
    Other(String),
}

/// An [`Error`] with its texts as sequences of characters.
pub enum ErrorView {
    InvalidArgument(Seq<char>),
    Io(std::io::Error),
    Runtime(Seq<char>),
    Other(Seq<char>),
}

impl View for Error {
    type V = ErrorView;

    open spec fn view(&self) -> ErrorView {
        match self {
            Error::InvalidArgument(text) => ErrorView::InvalidArgument(text@),
            Error::Io(cause) => ErrorView::Io(*cause),
            Error::Runtime(text) => ErrorView::Runtime(text@),
            Error::Other(text) => ErrorView::Other(text@),
        }
    }
}

} // verus!
