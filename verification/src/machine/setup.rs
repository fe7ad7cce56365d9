//! The processors and the memory of a machine.

use crate::error::{Error, ErrorView};
use crate::text::{decimal, number};
use vstd::prelude::*;

verus! {

/// The processors of a machine: a plain count, or sockets, cores per socket
/// and threads per core.
pub struct CpuSetup {
    cpus: Option<u8>,
    sockets: Option<u8>,
    cores_per_sockets: Option<u8>,
    threads_per_cores: Option<u8>,
}

/// What a [`CpuSetup`] holds.
pub struct CpuSetupView {
    pub cpus: Option<u8>,
    pub sockets: Option<u8>,
    pub cores_per_sockets: Option<u8>,
    pub threads_per_cores: Option<u8>,
}

impl View for CpuSetup {
    type V = CpuSetupView;

    closed spec fn view(&self) -> CpuSetupView {
        CpuSetupView {
            cpus: self.cpus,
            sockets: self.sockets,
            cores_per_sockets: self.cores_per_sockets,
            threads_per_cores: self.threads_per_cores,
        }
    }
}

impl CpuSetupView {
    /// Whether sockets, cores and threads are all given.
    pub open spec fn is_custom(self) -> bool {
        self.sockets is Some && self.cores_per_sockets is Some && self.threads_per_cores is Some
    }

    /// The complaint about the first number that is zero where it must not
    /// be, if there is one. A plain count, where given, is the only number
    /// looked at.
    pub open spec fn fault(self) -> Option<Seq<char>> {
        if self.cpus is Some {
            if self.cpus->0 > 0 {
                None
            } else {
                Some("Invalid number of CPUs (must be greater than 0)"@)
            }
        } else if self.is_custom() {
            if self.sockets->0 > 0 && self.cores_per_sockets->0 > 0 && self.threads_per_cores->0
                > 0 {
                None
            } else {
                Some("Invalid CPU parameters (sockets, cores, threads) (must be greater than 0)"@)
            }
        } else {
            None
        }
    }

    /// The `-smp` argument and its value: the plain count where given, else
    /// the topology; nothing where neither is complete.
    pub open spec fn arguments(self) -> Seq<Seq<char>> {
        if self.cpus is Some {
            seq!["-smp"@, decimal(self.cpus->0 as nat)]
        } else if self.is_custom() {
            seq![
                "-smp"@,
                "cores="@ + decimal(self.cores_per_sockets->0 as nat) + ",threads="@ + decimal(
                    self.threads_per_cores->0 as nat,
                ) + ",sockets="@ + decimal(self.sockets->0 as nat),
            ]
        } else {
            Seq::empty()
        }
    }
}

impl CpuSetup {
    /// A machine with `cpus` processors.
    pub fn new(cpus: u8) -> (setup: CpuSetup)
        ensures
            setup@ == (CpuSetupView {
                cpus: Some(cpus),
                sockets: None,
                cores_per_sockets: None,
                threads_per_cores: None,
            }),
    {
        CpuSetup {
            cpus: Some(cpus),
            sockets: None,
            cores_per_sockets: None,
            threads_per_cores: None,
        }
    }

    /// A machine with `sockets` sockets, `cores` cores in each socket and
    /// `threads` threads on each core.
    pub fn custom(sockets: u8, cores: u8, threads: u8) -> (setup: CpuSetup)
        ensures
            setup@ == (CpuSetupView {
                cpus: None,
                sockets: Some(sockets),
                cores_per_sockets: Some(cores),
                threads_per_cores: Some(threads),
            }),
    {
        CpuSetup {
            cpus: None,
            sockets: Some(sockets),
            cores_per_sockets: Some(cores),
            threads_per_cores: Some(threads),
        }
    }

    /// Checks the numbers and writes the arguments.
    pub(crate) fn arguments(&self) -> (r: Result<Vec<String>, Error>)
        ensures
            match r {
                Ok(args) => self@.fault() is None && args.deep_view() == self@.arguments(),
                Err(error) => self@.fault() is Some && error@ == ErrorView::InvalidArgument(
                    self@.fault()->0,
                ),
            },
    {
        let mut args: Vec<String> = Vec::new();
        if let Some(cpus) = self.cpus {
            if cpus > 0 {
                args.push("-smp".to_owned());
                args.push(number(cpus as u64));
            } else {
                return Err(
                    Error::InvalidArgument(
                        "Invalid number of CPUs (must be greater than 0)".to_owned(),
                    ),
                );
            }
        } else if self.sockets.is_some() && self.cores_per_sockets.is_some()
            && self.threads_per_cores.is_some() {
            let sockets = self.sockets.unwrap();
            let cores = self.cores_per_sockets.unwrap();
            let threads = self.threads_per_cores.unwrap();
            if sockets > 0 && cores > 0 && threads > 0 {
                let mut topology = "cores=".to_owned();
                topology.append(number(cores as u64).as_str());
                topology.append(",threads=");
                topology.append(number(threads as u64).as_str());
                topology.append(",sockets=");
                topology.append(number(sockets as u64).as_str());
                args.push("-smp".to_owned());
                args.push(topology);
            } else {
                return Err(
                    Error::InvalidArgument(
                        "Invalid CPU parameters (sockets, cores, threads) (must be greater than 0)".to_owned(),
                    ),
                );
            }
        }
        assert(args.deep_view() =~= self@.arguments());
        Ok(args)
    }
}

/// The memory of a machine: its size and, where memory can be plugged in
/// while the machine runs, the slots and the limit for that.
pub struct MemorySetup {
    size: usize,
    slots: Option<u8>,
    maxmem: Option<usize>,
}

/// What a [`MemorySetup`] holds.
pub struct MemorySetupView {
    pub size: usize,
    pub slots: Option<u8>,
    pub maxmem: Option<usize>,
}

impl View for MemorySetup {
    type V = MemorySetupView;

    closed spec fn view(&self) -> MemorySetupView {
        MemorySetupView { size: self.size, slots: self.slots, maxmem: self.maxmem }
    }
}

impl MemorySetupView {
    /// Whether memory can be plugged in while the machine runs: slots and
    /// limit are both given.
    pub open spec fn is_hotpluggable(self) -> bool {
        self.slots is Some && self.maxmem is Some
    }

    /// The complaint about the first number that is zero where it must not
    /// be, if there is one: the size, then the slots, then the limit.
    pub open spec fn fault(self) -> Option<Seq<char>> {
        if self.size == 0 {
            Some("Invalid memory size (must be greater than 0)"@)
        } else if self.is_hotpluggable() && self.slots->0 == 0 {
            Some("Invalid memory slots number (must be greater than 0)"@)
        } else if self.is_hotpluggable() && self.maxmem->0 == 0 {
            Some("Invalid maximum memory amout (must be greater than 0)"@)
        } else {
            None
        }
    }

    /// The value of `-m`: the size in MiB, then slots and limit where memory
    /// can be plugged in.
    pub open spec fn layout(self) -> Seq<char> {
        if self.is_hotpluggable() {
            decimal(self.size as nat) + ",slots="@ + decimal(self.slots->0 as nat) + ",maxmem="@
                + decimal(self.maxmem->0 as nat)
        } else {
            decimal(self.size as nat)
        }
    }

    /// The `-m` argument and its value.
    pub open spec fn arguments(self) -> Seq<Seq<char>> {
        seq!["-m"@, self.layout()]
    }
}

impl MemorySetup {
    /// `size` MiB of memory, none of it pluggable.
    pub fn new(size: usize) -> (setup: MemorySetup)
        ensures
            setup@ == (MemorySetupView { size, slots: None, maxmem: None }),
    {
        MemorySetup { size, slots: None, maxmem: None }
    }

    /// `size` MiB of memory at startup, with `slots` slots to plug more in,
    /// up to `maxmem` MiB in all.
    pub fn hotpluggable(size: usize, slots: u8, maxmem: usize) -> (setup: MemorySetup)
        ensures
            setup@ == (MemorySetupView { size, slots: Some(slots), maxmem: Some(maxmem) }),
    {
        MemorySetup { size, slots: Some(slots), maxmem: Some(maxmem) }
    }

    /// Checks the numbers and writes the arguments.
    pub(crate) fn arguments(&self) -> (r: Result<Vec<String>, Error>)
        ensures
            match r {
                Ok(args) => self@.fault() is None && args.deep_view() == self@.arguments(),
                Err(error) => self@.fault() is Some && error@ == ErrorView::InvalidArgument(
                    self@.fault()->0,
                ),
            },
    {
        if self.size == 0 {
            return Err(
                Error::InvalidArgument("Invalid memory size (must be greater than 0)".to_owned()),
            );
        }
        let mut layout = number(self.size as u64);
        if self.slots.is_some() && self.maxmem.is_some() {
            let slots = self.slots.unwrap();
            let maxmem = self.maxmem.unwrap();
            if slots == 0 {
                return Err(
                    Error::InvalidArgument(
                        "Invalid memory slots number (must be greater than 0)".to_owned(),
                    ),
                );
            }
            layout.append(",slots=");
            layout.append(number(slots as u64).as_str());
            if maxmem == 0 {
                return Err(
                    Error::InvalidArgument(
                        "Invalid maximum memory amout (must be greater than 0)".to_owned(),
                    ),
                );
            }
            layout.append(",maxmem=");
            layout.append(number(maxmem as u64).as_str());
        }
        let mut args: Vec<String> = Vec::new();
        args.push("-m".to_owned());
        args.push(layout);
        assert(args.deep_view() =~= self@.arguments());
        Ok(args)
    }
}

} // verus!
