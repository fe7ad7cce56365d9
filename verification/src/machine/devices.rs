//! The drives and the network interfaces of a machine.

use crate::text::{is_keyword, lowercase};
use vstd::prelude::*;

verus! {

/// The kinds of media that a drive can hold.
#[derive(Debug, Clone, Copy, PartialEq, Eq)]
pub enum DriveMedia {
    CDRom,
    Disk,
}

impl DriveMedia {
    /// The name of the kind, as it is written in this library.
    pub open spec fn name(self) -> Seq<char> {
        match self {
            DriveMedia::CDRom => "CDRom"@,
            DriveMedia::Disk => "Disk"@,
        }
    }

    /// The word by which the emulator knows the kind.
    pub open spec fn keyword(self) -> Seq<char> {
        match self {
            DriveMedia::CDRom => "cdrom"@,
            DriveMedia::Disk => "disk"@,
        }
    }

    /// Writes the kind as the emulator expects it, in lower case.
    pub fn to_string(&self) -> (text: String)
        ensures
            text@ == self.keyword(),
    {
        match self {
            DriveMedia::CDRom => "cdrom".to_owned(),
            DriveMedia::Disk => "disk".to_owned(),
        }
    }
}

/// Every kind of media is written as the emulator knows it: a word of small
/// letters, which is the kind's name in lower case.
pub proof fn lemma_media_keyword(media: DriveMedia)
    ensures
        is_keyword(media.keyword()),
        media.keyword() == lowercase(media.name()),
{
    reveal_strlit("CDRom");
    reveal_strlit("Disk");
    reveal_strlit("cdrom");
    reveal_strlit("disk");
    assert(media.keyword() =~= lowercase(media.name()));
}

/// A drive of a machine, backed by an image file.
pub struct Drive {
    media: DriveMedia,
    file: String,
}

/// What a [`Drive`] holds.
pub struct DriveView {
    pub media: DriveMedia,
    pub file: Seq<char>,
}

impl View for Drive {
    type V = DriveView;

    closed spec fn view(&self) -> DriveView {
        DriveView { media: self.media, file: self.file@ }
    }
}

impl DriveView {
    /// The `-drive` argument and its value: the image file, then the media.
    pub open spec fn arguments(self) -> Seq<Seq<char>> {
        seq!["-drive"@, "file="@ + self.file + ",media="@ + self.media.keyword()]
    }
}

impl Drive {
    /// A drive that holds `media`, backed by the image at the path `file`.
    pub fn new(media: DriveMedia, file: &str) -> (drive: Drive)
        ensures
            drive@ == (DriveView { media, file: file@ }),
    {
        Drive { media, file: file.to_owned() }
    }

    /// Writes the drive as arguments of the emulator.
    pub fn into_arguments(self) -> (args: Vec<String>)
        ensures
            args.deep_view() == self@.arguments(),
    {
        let mut value = "file=".to_owned();
        value.append(self.file.as_str());
        value.append(",media=");
        value.append(self.media.to_string().as_str());
        let mut args: Vec<String> = Vec::new();
        args.push("-drive".to_owned());
        args.push(value);
        assert(args.deep_view() =~= self@.arguments());
        args
    }
}

/// A TAP network interface of a machine.
pub struct TapInterface {
    name: String,
    custom_mac: Option<String>,
}

/// What a [`TapInterface`] holds.
pub struct TapInterfaceView {
    pub name: Seq<char>,
    pub custom_mac: Option<Seq<char>>,
}

impl View for TapInterface {
    type V = TapInterfaceView;

    closed spec fn view(&self) -> TapInterfaceView {
        TapInterfaceView { name: self.name@, custom_mac: self.custom_mac.deep_view() }
    }
}

impl TapInterfaceView {
    /// The complaint about a MAC address that is given but empty.
    pub open spec fn fault(self) -> Option<Seq<char>> {
        if self.custom_mac is Some && self.custom_mac->0.len() == 0 {
            Some("Invalid custom MAC address"@)
        } else {
            None
        }
    }

    /// The value of `-netdev`: a TAP device, named on the host as in the
    /// emulator.
    pub open spec fn netdev(self) -> Seq<char> {
        "tap,id="@ + self.name + ",ifname="@ + self.name
    }

    /// The value of `-device`: a virtio card on that network device, with
    /// the MAC address where one is given.
    pub open spec fn device(self) -> Seq<char> {
        match self.custom_mac {
            Some(mac) => "virtio-net,netdev="@ + self.name + ",mac="@ + mac,
            None => "virtio-net,netdev="@ + self.name,
        }
    }

    /// The four arguments of an interface: the network device first, then
    /// the card.
    pub open spec fn arguments(self) -> Seq<Seq<char>> {
        seq!["-netdev"@, self.netdev(), "-device"@, self.device()]
    }
}

impl TapInterface {
    /// An interface called `name`, with a MAC address of the emulator's
    /// choice.
    pub fn new(name: &str) -> (interface: TapInterface)
        ensures
            interface@ == (TapInterfaceView { name: name@, custom_mac: None }),
    {
        TapInterface { name: name.to_owned(), custom_mac: None }
    }

    /// An interface called `name` with the MAC address `mac`.
    pub fn with_mac_addr(name: &str, mac: &str) -> (interface: TapInterface)
        ensures
            interface@ == (TapInterfaceView { name: name@, custom_mac: Some(mac@) }),
    {
        TapInterface { name: name.to_owned(), custom_mac: Some(mac.to_owned()) }
    }

    /// Whether a MAC address is given and empty.
    pub(crate) fn has_empty_mac(&self) -> (empty: bool)
        ensures
            empty == (self@.fault() is Some),
    {
        match &self.custom_mac {
            Some(mac) => mac.as_str().is_empty(),
            None => false,
        }
    }

    /// Writes the arguments, whatever the MAC address.
    pub(crate) fn arguments(&self) -> (args: Vec<String>)
        ensures
            args.deep_view() == self@.arguments(),
    {
        let mut netdev = "tap,id=".to_owned();
        netdev.append(self.name.as_str());
        netdev.append(",ifname=");
        netdev.append(self.name.as_str());
        let mut device = "virtio-net,netdev=".to_owned();
        device.append(self.name.as_str());
        match &self.custom_mac {
            Some(mac) => {
                device.append(",mac=");
                device.append(mac.as_str());
            },
            None => {},
        }
        let mut args: Vec<String> = Vec::new();
        args.push("-netdev".to_owned());
        args.push(netdev);
        args.push("-device".to_owned());
        args.push(device);
        assert(args.deep_view() =~= self@.arguments());
        args
    }

    /// Writes the interface as arguments of the emulator.
    pub fn into_arguments(self) -> (args: Vec<String>)
        ensures
            args.deep_view() == self@.arguments(),
    {
        self.arguments()
    }
}

} // verus!
