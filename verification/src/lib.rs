//! Typed configuration of a QEMU virtual machine, turned into the command line
//! that launches it.
//!
//! The library computes and checks; it spawns nothing and reads no file. A
//! [`Builder`] collects settings into the arguments of the emulator, a
//! [`machine::Machine`] checks its configuration and writes its own, and both
//! hand out a [`launch::Launch`] that leads the caller through the spawning.

pub mod display;
pub mod error;
pub mod image;
pub mod launch;
pub mod machine;
pub mod resolve;
pub mod text;

use crate::display::{Display, DisplayView, Vga};
use crate::error::{InitError, InitErrorView};
use crate::launch::{Invocation, InvocationView, Launch, LaunchView};
use crate::machine::options::{Memory, MemoryView, Processors, ProcessorsView};
use crate::machine::{Drive, DriveView, TapInterface, TapInterfaceView};
use crate::resolve::{resolve, resolved, Candidate};
use crate::text::push_args;
use vstd::prelude::*;

verus! {

/// One setting of the emulator, of any of the kinds that a [`Builder`] takes.
pub enum Setting {
    Processors(Processors),
    Memory(Memory),
    Display(Display),
    Vga(Vga),
    Drive(Drive),
    NetworkInterface(TapInterface),
}

/// What a [`Setting`] holds.
pub enum SettingView {
    Processors(ProcessorsView),
    Memory(MemoryView),
    Display(DisplayView),
    Vga(Vga),
    Drive(DriveView),
    NetworkInterface(TapInterfaceView),
}

impl View for Setting {
    type V = SettingView;

    open spec fn view(&self) -> SettingView {
        match self {
            Setting::Processors(processors) => SettingView::Processors(processors@),
            Setting::Memory(memory) => SettingView::Memory(memory@),
            Setting::Display(display) => SettingView::Display(display@),
            Setting::Vga(vga) => SettingView::Vga(*vga),
            Setting::Drive(drive) => SettingView::Drive(drive@),
            Setting::NetworkInterface(interface) => SettingView::NetworkInterface(interface@),
        }
    }
}

impl SettingView {
    /// The arguments that the setting is written as: those of its kind.
    pub open spec fn arguments(self) -> Seq<Seq<char>> {
        match self {
            SettingView::Processors(processors) => processors.arguments(),
            SettingView::Memory(memory) => memory.arguments(),
            SettingView::Display(display) => display.arguments(),
            SettingView::Vga(vga) => vga.arguments(),
            SettingView::Drive(drive) => drive.arguments(),
            SettingView::NetworkInterface(interface) => interface.arguments(),
        }
    }
}

impl Setting {
    /// Writes the setting as arguments of the emulator.
    pub fn into_arguments(self) -> (args: Vec<String>)
        ensures
            args.deep_view() == self@.arguments(),
    {
        match self {
            Setting::Processors(processors) => processors.into_arguments(),
            Setting::Memory(memory) => memory.into_arguments(),
            Setting::Display(display) => display.into_arguments(),
            Setting::Vga(vga) => vga.into_arguments(),
            Setting::Drive(drive) => drive.into_arguments(),
            Setting::NetworkInterface(interface) => interface.into_arguments(),
        }
    }
}

/// Collects the settings of an emulator and prepares its launch.
pub struct Builder {
    executable: String,
    args: Vec<String>,
}

/// What a [`Builder`] holds: the path of the emulator and the arguments
/// collected so far.
pub struct BuilderView {
    pub executable: Seq<char>,
    pub args: Seq<Seq<char>>,
}

impl View for Builder {
    type V = BuilderView;

    closed spec fn view(&self) -> BuilderView {
        BuilderView { executable: self.executable@, args: self.args.deep_view() }
    }
}

impl BuilderView {
    /// The process that the builder launches: the emulator with the
    /// collected arguments. Its standard error is left alone, and it is taken
    /// for running as soon as it is spawned.
    pub open spec fn invocation(self) -> InvocationView {
        InvocationView {
            program: self.executable,
            args: self.args,
            capture_stderr: false,
            check_delay_ms: None,
        }
    }
}

impl Builder {
    /// A builder for the emulator that `executable` stands for, without
    /// arguments.
    ///
    /// `executable` is a path to the emulator, or the name of a program on
    /// the search path. `is_file` says whether it names a file as it stands,
    /// and `candidates` are the places on the search path where it may lie,
    /// in the path's order: see [`resolve`]. Fails with
    /// [`InitError::ExecutableNotFound`] if and only if the emulator is
    /// found at none of them.
    pub fn new(executable: &str, is_file: bool, candidates: &Vec<Candidate>) -> (r: Result<
        Builder,
        InitError,
    >)
        ensures
            match r {
                Ok(builder) => {
                    &&& resolved(executable@, is_file, candidates.deep_view()) == Some(
                        builder@.executable,
                    )
                    &&& builder@.args == Seq::<Seq<char>>::empty()
                },
                Err(error) => {
                    &&& resolved(executable@, is_file, candidates.deep_view()) is None
                    &&& error@ == (InitErrorView::ExecutableNotFound { executable: executable@ })
                },
            },
    {
        match resolve(executable, is_file, candidates) {
            Ok(path) => {
                let builder = Builder { executable: path, args: Vec::new() };
                assert(builder@.args =~= Seq::<Seq<char>>::empty());
                Ok(builder)
            },
            Err(error) => Err(error),
        }
    }

    /// Adds a setting: its arguments come after those collected so far.
    pub fn with(self, setting: Setting) -> (builder: Builder)
        ensures
            builder@ == (BuilderView {
                args: self@.args + setting@.arguments(),
                ..self@
            }),
    {
        let mut builder = self;
        push_args(&mut builder.args, setting.into_arguments());
        builder
    }

    /// Prepares the launch of the emulator with the collected arguments, and
    /// returns it at its first step, the spawning. Nothing is spawned here.
    /// The builder is used up. As the builder prepares it, the launch is over
    /// once the emulator is spawned; a caller who wants the emulator looked
    /// at after a delay sets that delay in the invocation.
    pub fn start(self) -> (launch: Launch)
        ensures
            launch@ == LaunchView::Spawn(self@.invocation()),
    {
        Launch::Spawn(
            Invocation {
                program: self.executable,
                args: self.args,
                capture_stderr: false,
                check_delay_ms: None,
            },
        )
    }
}

/// A parameter of the emulator's command line: a name and, for some, a value.
pub trait Parameter: Sized {
    /// The name of the parameter.
    spec fn name_text(&self) -> Seq<char>;

    /// The value of the parameter, if it has one.
    spec fn value_text(&self) -> Option<Seq<char>>;

    /// The name of the parameter, such as `display`, `smp` or `m`.
    fn name(&self) -> (name: &str)
        ensures
            name@ == self.name_text(),
    ;

    /// The value of the parameter, if it has one; `sdl`, say, for `display`.
    fn value(&self) -> (value: Option<&str>)
        ensures
            value.deep_view() == self.value_text(),
    ;

    /// Takes the parameter apart into its name and its value.
    fn take(self) -> (pair: (String, Option<String>))
        ensures
            pair.0@ == self.name_text(),
            pair.1.deep_view() == self.value_text(),
    ;
}

impl Parameter for &'static str {
    open spec fn name_text(&self) -> Seq<char> {
        self@
    }

    open spec fn value_text(&self) -> Option<Seq<char>> {
        None
    }

    fn name(&self) -> (name: &str) {
        self
    }

    fn value(&self) -> (value: Option<&str>) {
        None
    }

    fn take(self) -> (pair: (String, Option<String>)) {
        (self.to_owned(), None)
    }
}

impl Parameter for String {
    open spec fn name_text(&self) -> Seq<char> {
        self@
    }

    open spec fn value_text(&self) -> Option<Seq<char>> {
        None
    }

    fn name(&self) -> (name: &str) {
        self.as_str()
    }

    fn value(&self) -> (value: Option<&str>) {
        None
    }

    fn take(self) -> (pair: (String, Option<String>)) {
        (self, None)
    }
}

impl Parameter for (&'static str, &'static str) {
    open spec fn name_text(&self) -> Seq<char> {
        self.0@
    }

    open spec fn value_text(&self) -> Option<Seq<char>> {
        Some(self.1@)
    }

    fn name(&self) -> (name: &str) {
        self.0
    }

    fn value(&self) -> (value: Option<&str>) {
        Some(self.1)
    }

    fn take(self) -> (pair: (String, Option<String>)) {
        (self.0.to_owned(), Some(self.1.to_owned()))
    }
}

impl Parameter for (String, String) {
    open spec fn name_text(&self) -> Seq<char> {
        self.0@
    }

    open spec fn value_text(&self) -> Option<Seq<char>> {
        Some(self.1@)
    }

    fn name(&self) -> (name: &str) {
        self.0.as_str()
    }

    fn value(&self) -> (value: Option<&str>) {
        Some(self.1.as_str())
    }

    fn take(self) -> (pair: (String, Option<String>)) {
        (self.0, Some(self.1))
    }
}

} // verus!
