//! The machine to emulate: its processors, memory, drives and network
//! interfaces, and the command line that launches it.

pub mod devices;
pub mod options;
pub mod setup;

pub use devices::{Drive, DriveMedia, DriveView, TapInterface, TapInterfaceView};
pub use options::{Memory, Processors};
pub use setup::{CpuSetup, CpuSetupView, MemorySetup, MemorySetupView};

use crate::error::{Error, ErrorView};
use crate::launch::{Invocation, InvocationView, Launch, LaunchView};
use crate::text::{push_arg, push_args};
use vstd::prelude::*;

verus! {

/// The arguments of all of `interfaces`, one interface after the other.
pub open spec fn interfaces_arguments(interfaces: Seq<TapInterfaceView>) -> Seq<Seq<char>>
    decreases interfaces.len(),
{
    if interfaces.len() == 0 {
        Seq::empty()
    } else {
        interfaces_arguments(interfaces.drop_last()) + interfaces.last().arguments()
    }
}

/// The emulator that a [`Machine`] runs on, by the name under which the
/// operating system finds it.
pub open spec fn emulator() -> Seq<char> {
    "qemu-system-x86_64"@
}

/// How long after the spawn a machine is looked at, in milliseconds. A
/// caller who wants another delay changes it in the invocation that
/// [`Machine::start`] returns.
pub const CHECK_DELAY_MS: u64 = 500;

/// A virtual machine.
pub struct Machine {
    kvm: bool,
    cpu: CpuSetup,
    mem: MemorySetup,
    drives: Vec<Drive>,
    interfaces: Vec<TapInterface>,
}

/// What a [`Machine`] holds.
pub struct MachineView {
    pub kvm: bool,
    pub cpu: CpuSetupView,
    pub mem: MemorySetupView,
    pub drives: Seq<DriveView>,
    pub interfaces: Seq<TapInterfaceView>,
}

impl View for Machine {
    type V = MachineView;

    closed spec fn view(&self) -> MachineView {
        MachineView {
            kvm: self.kvm,
            cpu: self.cpu@,
            mem: self.mem@,
            drives: self.drives@.map_values(|drive: Drive| drive@),
            interfaces: self.interfaces@.map_values(|interface: TapInterface| interface@),
        }
    }
}

impl MachineView {
    /// The complaint about the first value that fails its guard, if there is
    /// one: the processors are looked at first, then the memory, then the
    /// interfaces.
    pub open spec fn fault(self) -> Option<Seq<char>> {
        if self.cpu.fault() is Some {
            self.cpu.fault()
        } else if self.mem.fault() is Some {
            self.mem.fault()
        } else if exists|i: int|
            0 <= i < self.interfaces.len() && (#[trigger] self.interfaces[i]).fault() is Some {
            Some("Invalid custom MAC address"@)
        } else {
            None
        }
    }

    /// The switch that turns hardware acceleration on, where it is wanted.
    pub open spec fn acceleration(self) -> Seq<Seq<char>> {
        if self.kvm {
            seq!["-enable-kvm"@]
        } else {
            Seq::empty()
        }
    }

    /// The arguments of the emulator: acceleration, processors, memory, then
    /// the interfaces in the order in which they were attached. The drives
    /// are kept with the machine and take no part in the command line.
    pub open spec fn arguments(self) -> Seq<Seq<char>> {
        self.acceleration() + self.cpu.arguments() + self.mem.arguments() + interfaces_arguments(
            self.interfaces,
        )
    }

    /// The process that launches the machine: its standard error is
    /// captured, and it is looked at once after [`CHECK_DELAY_MS`].
    pub open spec fn invocation(self) -> InvocationView {
        InvocationView {
            program: emulator(),
            args: self.arguments(),
            capture_stderr: true,
            check_delay_ms: Some(CHECK_DELAY_MS),
        }
    }
}

impl Machine {
    /// A machine with the given processors and memory, without drives or
    /// interfaces, accelerated by KVM if `use_kvm` is set.
    pub fn new(cpu: CpuSetup, mem: MemorySetup, use_kvm: bool) -> (machine: Machine)
        ensures
            machine@ == (MachineView {
                kvm: use_kvm,
                cpu: cpu@,
                mem: mem@,
                drives: Seq::empty(),
                interfaces: Seq::empty(),
            }),
    {
        let machine = Machine {
            kvm: use_kvm,
            cpu,
            mem,
            drives: Vec::new(),
            interfaces: Vec::new(),
        };
        assert(machine@.drives =~= Seq::empty());
        assert(machine@.interfaces =~= Seq::empty());
        machine
    }

    /// Attaches a drive to the machine, after those it has.
    pub fn add_drive(&mut self, drive: Drive)
        ensures
            final(self)@ == (MachineView {
                drives: old(self)@.drives.push(drive@),
                ..old(self)@
            }),
    {
        self.drives.push(drive);
        assert(self@.drives =~= old(self)@.drives.push(drive@));
    }

    /// Attaches a TAP network interface to the machine, after those it has.
    pub fn add_interface(&mut self, iface: TapInterface)
        ensures
            final(self)@ == (MachineView {
                interfaces: old(self)@.interfaces.push(iface@),
                ..old(self)@
            }),
    {
        self.interfaces.push(iface);
        assert(self@.interfaces =~= old(self)@.interfaces.push(iface@));
    }

    /// Prepares the launch of the machine.
    ///
    /// Every number of the configuration must be greater than zero and a MAC
    /// address, where given, not empty; the first value that is not is
    /// reported as [`Error::InvalidArgument`]. Otherwise the launch is
    /// returned at its first step, the spawning of the emulator. Nothing is
    /// spawned here.
    pub fn start(&self) -> (r: Result<Launch, Error>)
        ensures
            match r {
                Ok(launch) => self@.fault() is None && launch@ == LaunchView::Spawn(
                    self@.invocation(),
                ),
                Err(error) => self@.fault() is Some && error@ == ErrorView::InvalidArgument(
                    self@.fault()->0,
                ),
            },
    {
        let mut args: Vec<String> = Vec::new();
        if self.kvm {
            push_arg(&mut args, "-enable-kvm".to_owned());
        }
        assert(args.deep_view() =~= self@.acceleration());
        match self.cpu.arguments() {
            Ok(cpu) => push_args(&mut args, cpu),
            Err(error) => {
                return Err(error);
            },
        }
        match self.mem.arguments() {
            Ok(mem) => push_args(&mut args, mem),
            Err(error) => {
                return Err(error);
            },
        }
        let ghost head = args.deep_view();
        let ghost interfaces = self@.interfaces;
        let mut i: usize = 0;
        while i < self.interfaces.len()
            invariant
                i <= self.interfaces.len(),
                interfaces == self@.interfaces,
                interfaces.len() == self.interfaces.len(),
                self@.cpu.fault() is None,
                self@.mem.fault() is None,
                forall|j: int| 0 <= j < i ==> (#[trigger] interfaces[j]).fault() is None,
                args.deep_view() == head + interfaces_arguments(interfaces.take(i as int)),
            decreases self.interfaces.len() - i,
        {
            let interface = &self.interfaces[i];
            assert(interface@ == interfaces[i as int]);
            if interface.has_empty_mac() {
                assert(interfaces[i as int].fault() is Some);
                return Err(Error::InvalidArgument("Invalid custom MAC address".to_owned()));
            }
            assert(interfaces.take(i + 1).drop_last() =~= interfaces.take(i as int));
            push_args(&mut args, interface.arguments());
            i += 1;
        }
        assert(interfaces.take(i as int) =~= interfaces);
        Ok(
            Launch::Spawn(
                Invocation {
                    program: "qemu-system-x86_64".to_owned(),
                    args,
                    capture_stderr: true,
                    check_delay_ms: Some(CHECK_DELAY_MS),
                },
            ),
        )
    }
}

/// Whether a machine runs.
#[derive(Debug, Clone, Copy, PartialEq, Eq)]
pub struct MachineStatus {
    /// True while the machine is running.
    pub running: bool,
}

} // verus!
