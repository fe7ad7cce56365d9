//! What the emulated machine shows, and on which graphics card.

use crate::text::{decimal, is_keyword, number};
use vstd::prelude::*;

verus! {

/// A display served over VNC.
pub struct Vnc {
    host: String,
    display: u16,
    ws_port: Option<u16>,
    password: bool,
}

/// What a [`Vnc`] value holds.
pub struct VncView {
    pub host: Seq<char>,
    pub display: u16,
    pub ws_port: Option<u16>,
    pub password: bool,
}

impl View for Vnc {
    type V = VncView;

    closed spec fn view(&self) -> VncView {
        VncView {
            host: self.host@,
            display: self.display,
            ws_port: self.ws_port,
            password: self.password,
        }
    }
}

impl VncView {
    /// The value of `-display`: host and display number, then the websocket
    /// port where one is set, then `password` where one is required.
    pub open spec fn text(self) -> Seq<char> {
        let address = "vnc="@ + self.host + ":"@ + decimal(self.display as nat);
        let websocket = match self.ws_port {
            Some(port) => ",websocket="@ + decimal(port as nat),
            None => Seq::empty(),
        };
        let password = if self.password {
            ",password"@
        } else {
            Seq::empty()
        };
        address + websocket + password
    }
}

impl Vnc {
    /// A VNC server on `host` for the display number `display`, without a
    /// websocket and without a password.
    pub fn new(host: &str, display: u16) -> (vnc: Vnc)
        ensures
            vnc@ == (VncView { host: host@, display, ws_port: None, password: false }),
    {
        Vnc { host: host.to_owned(), display, ws_port: None, password: false }
    }

    /// A VNC server as [`Vnc::new`] makes it, that also listens for
    /// websocket connections on the port `ws_port`.
    pub fn with_websocket(host: &str, display: u16, ws_port: u16) -> (vnc: Vnc)
        ensures
            vnc@ == (VncView { host: host@, display, ws_port: Some(ws_port), password: false }),
    {
        Vnc { host: host.to_owned(), display, ws_port: Some(ws_port), password: false }
    }

    /// Says whether the server asks for a password. The password itself is
    /// set through the emulator's monitor.
    pub fn use_password(&mut self, passwd: bool)
        ensures
            final(self)@ == (VncView { password: passwd, ..old(self)@ }),
    {
        self.password = passwd;
    }

    /// Writes the value of `-display`.
    fn text(&self) -> (text: String)
        ensures
            text@ == self@.text(),
    {
        let mut text = "vnc=".to_owned();
        text.append(self.host.as_str());
        text.append(":");
        text.append(number(self.display as u64).as_str());
        if let Some(port) = self.ws_port {
            text.append(",websocket=");
            text.append(number(port as u64).as_str());
        }
        if self.password {
            text.append(",password");
        }
        assert(text@ =~= self@.text());
        text
    }
}

/// Where the machine's display goes.
pub enum Display {
    /// Nowhere: the machine has no display.
    Off,
    /// Into a window, through SDL.
    Sdl,
    /// To a VNC server.
    Vnc(Vnc),
}

/// What a [`Display`] holds.
pub enum DisplayView {
    Off,
    Sdl,
    Vnc(VncView),
}

impl View for Display {
    type V = DisplayView;

    open spec fn view(&self) -> DisplayView {
        match self {
            Display::Off => DisplayView::Off,
            Display::Sdl => DisplayView::Sdl,
            Display::Vnc(vnc) => DisplayView::Vnc(vnc@),
        }
    }
}

impl DisplayView {
    /// The value of `-display`.
    pub open spec fn text(self) -> Seq<char> {
        match self {
            DisplayView::Off => "none"@,
            DisplayView::Sdl => "sdl"@,
            DisplayView::Vnc(vnc) => vnc.text(),
        }
    }

    /// The `-display` argument and its value.
    pub open spec fn arguments(self) -> Seq<Seq<char>> {
        seq!["-display"@, self.text()]
    }
}

impl Display {
    /// Writes the display as arguments of the emulator.
    pub fn into_arguments(self) -> (args: Vec<String>)
        ensures
            args.deep_view() == self@.arguments(),
    {
        let text = match &self {
            Display::Off => "none".to_owned(),
            Display::Sdl => "sdl".to_owned(),
            Display::Vnc(vnc) => vnc.text(),
        };
        let mut args: Vec<String> = Vec::new();
        args.push("-display".to_owned());
        args.push(text);
        assert(args.deep_view() =~= self@.arguments());
        args
    }
}

/// A display that is no VNC server is written as one word of small letters.
pub proof fn lemma_display_keyword(display: DisplayView)
    requires
        !(display is Vnc),
    ensures
        is_keyword(display.text()),
{
    reveal_strlit("none");
    reveal_strlit("sdl");
}

/// The graphics card to emulate.
#[derive(Debug, Clone, Copy, PartialEq, Eq)]
pub enum Vga {
    /// No card at all.
    Off,
    Cirrus,
    Std,
    VMWare,
    Qxl,
    Tcx,
    Cg3,
    Virtio,
}

impl Vga {
    /// The word by which the emulator knows the card.
    pub open spec fn keyword(self) -> Seq<char> {
        match self {
            Vga::Off => "none"@,
            Vga::Cirrus => "cirrus"@,
            Vga::Std => "std"@,
            Vga::VMWare => "vmware"@,
            Vga::Qxl => "qxl"@,
            Vga::Tcx => "tcx"@,
            Vga::Cg3 => "cg3"@,
            Vga::Virtio => "virtio"@,
        }
    }

    /// The `-vga` argument and its value.
    pub open spec fn arguments(self) -> Seq<Seq<char>> {
        seq!["-vga"@, self.keyword()]
    }

    /// Writes the card as arguments of the emulator.
    pub fn into_arguments(self) -> (args: Vec<String>)
        ensures
            args.deep_view() == self.arguments(),
    {
        let keyword = match self {
            Vga::Off => "none",
            Vga::Cirrus => "cirrus",
            Vga::Std => "std",
            Vga::VMWare => "vmware",
            Vga::Qxl => "qxl",
            Vga::Tcx => "tcx",
            Vga::Cg3 => "cg3",
            Vga::Virtio => "virtio",
        };
        let mut args: Vec<String> = Vec::new();
        args.push("-vga".to_owned());
        args.push(keyword.to_owned());
        assert(args.deep_view() =~= self.arguments());
        args
    }
}

/// Every graphics card is written as the emulator knows it: a word of small
/// letters and digits.
pub proof fn lemma_vga_keyword(vga: Vga)
    ensures
        is_keyword(vga.keyword()),
{
    reveal_strlit("none");
    reveal_strlit("cirrus");
    reveal_strlit("std");
    reveal_strlit("vmware");
    reveal_strlit("qxl");
    reveal_strlit("tcx");
    reveal_strlit("cg3");
    reveal_strlit("virtio");
}

} // verus!
