//! Disk images, and the command of the image tool that creates one.

use crate::error::{Error, ErrorView};
use crate::text::{decimal, is_keyword, lowercase, number};
use vstd::prelude::*;

verus! {

/// The image formats that the emulator supports.
#[derive(Debug, Clone, Copy, PartialEq, Eq)]
pub enum Format {
    Raw,
    QCow,
    QCow2,
    Vmdk,
    Vdi,
    Vhdx,
    Vpc,
}

impl Format {
    /// The name of the format, as it is written in this library.
    pub open spec fn name(self) -> Seq<char> {
        match self {
            Format::Raw => "Raw"@,
            Format::QCow => "QCow"@,
            Format::QCow2 => "QCow2"@,
            Format::Vmdk => "Vmdk"@,
            Format::Vdi => "Vdi"@,
            Format::Vhdx => "Vhdx"@,
            Format::Vpc => "Vpc"@,
        }
    }

    /// The word by which the image tool knows the format.
    pub open spec fn keyword(self) -> Seq<char> {
        match self {
            Format::Raw => "raw"@,
            Format::QCow => "qcow"@,
            Format::QCow2 => "qcow2"@,
            Format::Vmdk => "vmdk"@,
            Format::Vdi => "vdi"@,
            Format::Vhdx => "vhdx"@,
            Format::Vpc => "vpc"@,
        }
    }

    /// Writes the format as the image tool expects it, in lower case.
    pub fn to_string(&self) -> (text: String)
        ensures
            text@ == self.keyword(),
    {
        match self {
            Format::Raw => "raw".to_owned(),
            Format::QCow => "qcow".to_owned(),
            Format::QCow2 => "qcow2".to_owned(),
            Format::Vmdk => "vmdk".to_owned(),
            Format::Vdi => "vdi".to_owned(),
            Format::Vhdx => "vhdx".to_owned(),
            Format::Vpc => "vpc".to_owned(),
        }
    }
}

/// Every format is written as the image tool knows it: a word of small
/// letters and digits, which is the format's name in lower case.
pub proof fn lemma_format_keyword(format: Format)
    ensures
        is_keyword(format.keyword()),
        format.keyword() == lowercase(format.name()),
{
    reveal_strlit("Raw");
    reveal_strlit("QCow");
    reveal_strlit("QCow2");
    reveal_strlit("Vmdk");
    reveal_strlit("Vdi");
    reveal_strlit("Vhdx");
    reveal_strlit("Vpc");
    reveal_strlit("raw");
    reveal_strlit("qcow");
    reveal_strlit("qcow2");
    reveal_strlit("vmdk");
    reveal_strlit("vdi");
    reveal_strlit("vhdx");
    reveal_strlit("vpc");
    assert(format.keyword() =~= lowercase(format.name()));
}

/// A disk image.
pub struct Image {
    /// Where the image lies.
    pub path: String,
    /// The format of the image.
    pub format: Format,
    /// The size of the image, in bytes.
    pub size: usize,
}

/// What an [`Image`] holds.
pub struct ImageView {
    pub path: Seq<char>,
    pub format: Format,
    pub size: usize,
}

impl View for Image {
    type V = ImageView;

    open spec fn view(&self) -> ImageView {
        ImageView { path: self.path@, format: self.format, size: self.size }
    }
}

/// The image tool.
pub open spec fn image_tool() -> Seq<char> {
    "qemu-img"@
}

impl ImageView {
    /// The command line that creates the image: the tool, then `create`,
    /// the format, the path and the size in bytes.
    pub open spec fn write_command(self) -> Seq<Seq<char>> {
        seq![
            image_tool(),
            "create"@,
            "-f"@,
            self.format.keyword(),
            self.path,
            decimal(self.size as nat),
        ]
    }
}

/// How a run of the image tool ended.
#[derive(Debug)]
pub enum ToolExit {
    /// The tool ran and reported success.
    Success,
    /// The tool ran and reported a failure; `stdout` is what it printed on
    /// its standard output.
    Failure { stdout: String },
    /// The operating system could not run the tool.
    NotRun(std::io::Error),
}

/// What a [`ToolExit`] holds.
pub enum ToolExitView {
    Success,
    Failure { stdout: Seq<char> },
    NotRun(std::io::Error),
}

impl View for ToolExit {
    type V = ToolExitView;

    open spec fn view(&self) -> ToolExitView {
        match self {
            ToolExit::Success => ToolExitView::Success,
            ToolExit::Failure { stdout } => ToolExitView::Failure { stdout: stdout@ },
            ToolExit::NotRun(cause) => ToolExitView::NotRun(*cause),
        }
    }
}

impl ToolExitView {
    /// What the creation of an image came to.
    pub open spec fn write_result(self) -> Result<(), ErrorView> {
        match self {
            ToolExitView::Success => Ok(()),
            ToolExitView::Failure { stdout } => Err(ErrorView::Other(stdout)),
            ToolExitView::NotRun(cause) => Err(ErrorView::Io(cause)),
        }
    }
}

impl Image {
    /// Describes an image of `size` bytes at `path`. Nothing is written yet.
    pub fn new(path: &str, format: Format, size: usize) -> (image: Image)
        ensures
            image@ == (ImageView { path: path@, format, size }),
    {
        Image { path: path.to_owned(), format, size }
    }

    /// The command line that writes the image to disk, the tool's name
    /// first. Running it a second time writes the image anew.
    pub fn write_command(&self) -> (command: Vec<String>)
        ensures
            command.deep_view() == self@.write_command(),
    {
        let mut command: Vec<String> = Vec::new();
        command.push("qemu-img".to_owned());
        command.push("create".to_owned());
        command.push("-f".to_owned());
        command.push(self.format.to_string());
        command.push(self.path.clone());
        command.push(number(self.size as u64));
        assert(command.deep_view() =~= self@.write_command());
        command
    }

    /// What the writing of an image came to, given how the tool ended:
    /// success, the tool's own complaint as [`Error::Other`], or the
    /// operating system's as [`Error::Io`].
    pub fn write_result(exit: ToolExit) -> (r: Result<(), Error>)
        ensures
            match r {
                Ok(_) => exit@.write_result() is Ok,
                Err(error) => exit@.write_result() == Err::<(), ErrorView>(error@),
            },
    {
        match exit {
            ToolExit::Success => Ok(()),
            ToolExit::Failure { stdout } => Err(Error::Other(stdout)),
            ToolExit::NotRun(cause) => Err(Error::Io(cause)),
        }
    }
}

} // verus!
