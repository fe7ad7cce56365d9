//! The `-smp` and `-m` settings of a builder.

use crate::error::{InitError, InitErrorView};
use crate::text::{decimal, is_digit, join, joined, lemma_decimal_shape, lemma_joined_ends, number};
use vstd::prelude::*;

verus! {

/// The option `key=<n>`, with `n` in decimal.
pub open spec fn option_text(key: Seq<char>, n: nat) -> Seq<char> {
    key + "="@ + decimal(n)
}

/// The option `key=<n>` where a number is given, and nothing where none is.
pub open spec fn optional_text(key: Seq<char>, n: Option<u8>) -> Seq<Seq<char>> {
    match n {
        Some(n) => seq![option_text(key, n as nat)],
        None => Seq::empty(),
    }
}

/// An option begins as its key begins and ends with a digit.
proof fn lemma_option_ends(key: Seq<char>, n: nat)
    requires
        key.len() > 0,
    ensures
        option_text(key, n).len() > 0,
        option_text(key, n).first() == key.first(),
        is_digit(option_text(key, n).last()),
{
    lemma_decimal_shape(n);
    let number = decimal(n);
    assert(option_text(key, n).last() == number[number.len() - 1]);
}

/// Writes the option `key=<n>`.
fn option(key: &str, n: u64) -> (text: String)
    ensures
        text@ == option_text(key@, n as nat),
{
    let mut text = key.to_owned();
    text.append("=");
    text.append(number(n).as_str());
    text
}

/// The processors of the emulated machine: a plain count, or a topology of
/// cores, threads and sockets, either with a limit for processors plugged in
/// while the machine runs.
pub struct Processors {
    ncpus: Option<u8>,
    cores: Option<u8>,
    threads: Option<u8>,
    sockets: Option<u8>,
    maxcpus: Option<u8>,
}

/// What a [`Processors`] value holds.
pub struct ProcessorsView {
    pub ncpus: Option<u8>,
    pub cores: Option<u8>,
    pub threads: Option<u8>,
    pub sockets: Option<u8>,
    pub maxcpus: Option<u8>,
}

impl View for Processors {
    type V = ProcessorsView;

    closed spec fn view(&self) -> ProcessorsView {
        ProcessorsView {
            ncpus: self.ncpus,
            cores: self.cores,
            threads: self.threads,
            sockets: self.sockets,
            maxcpus: self.maxcpus,
        }
    }
}

impl ProcessorsView {
    /// Whether the value says how many processors there are: by a plain
    /// count, or by at least one number of the topology.
    pub open spec fn wf(self) -> bool {
        self.ncpus is Some || self.cores is Some || self.threads is Some || self.sockets is Some
    }

    /// The options of `-smp` in the order in which they are written. A plain
    /// count stands alone and hides the topology; of the topology, only the
    /// numbers that are given are written. The limit, where given, comes
    /// last.
    pub open spec fn options(self) -> Seq<Seq<char>> {
        let count = if self.ncpus is Some {
            optional_text("cpus"@, self.ncpus)
        } else {
            optional_text("cores"@, self.cores) + optional_text("threads"@, self.threads)
                + optional_text("sockets"@, self.sockets)
        };
        count + optional_text("maxcpus"@, self.maxcpus)
    }

    /// The `-smp` argument and its value, the options joined by commas.
    pub open spec fn arguments(self) -> Seq<Seq<char>> {
        seq!["-smp"@, joined(self.options(), ","@)]
    }
}

/// The value of `-smp` is never empty and has no comma before its first
/// option or behind its last: it begins with a small letter, the first of a
/// key, and ends with a digit, the last of a number.
pub proof fn lemma_smp_value_ends(processors: ProcessorsView)
    requires
        processors.wf(),
    ensures
        joined(processors.options(), ","@).len() > 0,
        'a' <= joined(processors.options(), ","@).first() <= 'z',
        is_digit(joined(processors.options(), ","@).last()),
{
    reveal_strlit("cpus");
    reveal_strlit("cores");
    reveal_strlit("threads");
    reveal_strlit("sockets");
    reveal_strlit("maxcpus");
    let options = processors.options();
    if processors.ncpus is Some {
        lemma_option_ends("cpus"@, processors.ncpus->0 as nat);
    }
    if processors.cores is Some {
        lemma_option_ends("cores"@, processors.cores->0 as nat);
    }
    if processors.threads is Some {
        lemma_option_ends("threads"@, processors.threads->0 as nat);
    }
    if processors.sockets is Some {
        lemma_option_ends("sockets"@, processors.sockets->0 as nat);
    }
    if processors.maxcpus is Some {
        lemma_option_ends("maxcpus"@, processors.maxcpus->0 as nat);
    }
    assert(options.len() > 0);
    assert(options.first().len() > 0 && 'a' <= options.first().first() <= 'z');
    assert(options.last().len() > 0 && is_digit(options.last().last()));
    lemma_joined_ends(options, ","@);
}

impl Processors {
    /// The invariant of the type: see [`ProcessorsView::wf`].
    pub open spec fn wf(&self) -> bool {
        self@.wf()
    }

    /// A machine with `n` processors.
    pub fn new(n: u8) -> (processors: Processors)
        ensures
            processors.wf(),
            processors@ == (ProcessorsView {
                ncpus: Some(n),
                cores: None,
                threads: None,
                sockets: None,
                maxcpus: None,
            }),
    {
        Processors { ncpus: Some(n), cores: None, threads: None, sockets: None, maxcpus: None }
    }

    /// A machine with the given numbers of cores, threads and sockets; the
    /// emulator computes those that are left out. Fails with
    /// [`InitError::InvalidConfig`] if, and only if, all three are left out.
    pub fn with(cores: Option<u8>, threads: Option<u8>, sockets: Option<u8>) -> (r: Result<
        Processors,
        InitError,
    >)
        ensures
            match r {
                Ok(processors) => {
                    &&& cores is Some || threads is Some || sockets is Some
                    &&& processors.wf()
                    &&& processors@ == (ProcessorsView {
                        ncpus: None,
                        cores,
                        threads,
                        sockets,
                        maxcpus: None,
                    })
                },
                Err(error) => {
                    &&& cores is None && threads is None && sockets is None
                    &&& error@ == (InitErrorView::InvalidConfig {
                        msg: "cpu cores, threads, or sockets must be defined"@,
                    })
                },
            },
    {
        if cores.is_none() && threads.is_none() && sockets.is_none() {
            return Err(
                InitError::InvalidConfig {
                    msg: "cpu cores, threads, or sockets must be defined".to_owned(),
                },
            );
        }
        Ok(Processors { ncpus: None, cores, threads, sockets, maxcpus: None })
    }

    /// Sets the limit for processors plugged in while the machine runs.
    /// The limit is written as it is given: it is not compared with the
    /// number of processors that the machine starts with.
    pub fn set_max_cpus(self, n: u8) -> (processors: Processors)
        ensures
            self.wf() ==> processors.wf(),
            processors@ == (ProcessorsView { maxcpus: Some(n), ..self@ }),
    {
        let mut processors = self;
        processors.maxcpus = Some(n);
        processors
    }

    /// Writes the processors as arguments of the emulator.
    pub fn into_arguments(self) -> (args: Vec<String>)
        ensures
            args.deep_view() == self@.arguments(),
    {
        let mut options: Vec<String> = Vec::new();
        if let Some(ncpus) = self.ncpus {
            options.push(option("cpus", ncpus as u64));
        } else {
            if let Some(cores) = self.cores {
                options.push(option("cores", cores as u64));
            }
            if let Some(threads) = self.threads {
                options.push(option("threads", threads as u64));
            }
            if let Some(sockets) = self.sockets {
                options.push(option("sockets", sockets as u64));
            }
        }
        if let Some(maxcpus) = self.maxcpus {
            options.push(option("maxcpus", maxcpus as u64));
        }
        assert(options.deep_view() =~= self@.options());
        let mut args: Vec<String> = Vec::new();
        args.push("-smp".to_owned());
        args.push(join(&options, ","));
        assert(args.deep_view() =~= self@.arguments());
        args
    }
}

/// The memory of the emulated machine.
pub struct Memory {
    size: u64,
    slots: Option<u8>,
    maxmem: Option<u64>,
}

/// What a [`Memory`] value holds.
pub struct MemoryView {
    pub size: u64,
    pub slots: Option<u8>,
    pub maxmem: Option<u64>,
}

impl View for Memory {
    type V = MemoryView;

    closed spec fn view(&self) -> MemoryView {
        MemoryView { size: self.size, slots: self.slots, maxmem: self.maxmem }
    }
}

impl MemoryView {
    /// The value of `-m`: the size, then slots and limit, which are written
    /// together or not at all.
    pub open spec fn layout(self) -> Seq<char> {
        if self.slots is Some && self.maxmem is Some {
            option_text("size"@, self.size as nat) + ","@ + option_text(
                "slots"@,
                self.slots->0 as nat,
            ) + ","@ + option_text("maxmem"@, self.maxmem->0 as nat)
        } else {
            option_text("size"@, self.size as nat)
        }
    }

    /// The `-m` argument and its value.
    pub open spec fn arguments(self) -> Seq<Seq<char>> {
        seq!["-m"@, self.layout()]
    }
}

impl Memory {
    /// `size` MiB of memory, none of it pluggable while the machine runs.
    pub fn new(size: u64) -> (memory: Memory)
        ensures
            memory@ == (MemoryView { size, slots: None, maxmem: None }),
    {
        Memory { size, slots: None, maxmem: None }
    }

    /// `size` MiB of memory at startup, with `slots` slots to plug more in,
    /// up to `maxmem` MiB in all.
    pub fn with(size: u64, slots: u8, maxmem: u64) -> (memory: Memory)
        ensures
            memory@ == (MemoryView { size, slots: Some(slots), maxmem: Some(maxmem) }),
    {
        Memory { size, slots: Some(slots), maxmem: Some(maxmem) }
    }

    /// Writes the memory as arguments of the emulator.
    pub fn into_arguments(self) -> (args: Vec<String>)
        ensures
            args.deep_view() == self@.arguments(),
    {
        let mut layout = option("size", self.size);
        if self.slots.is_some() && self.maxmem.is_some() {
            layout.append(",");
            layout.append(option("slots", self.slots.unwrap() as u64).as_str());
            layout.append(",");
            layout.append(option("maxmem", self.maxmem.unwrap()).as_str());
        }
        let mut args: Vec<String> = Vec::new();
        args.push("-m".to_owned());
        args.push(layout);
        assert(args.deep_view() =~= self@.arguments());
        args
    }
}

} // verus!
