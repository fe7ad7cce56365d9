use qemu::display::{Display, Vga, Vnc};

#[test]
fn vga_keywords_are_those_of_the_emulator() {
    assert_eq!(Vga::Off.into_arguments(), vec!["-vga", "none"]);
    assert_eq!(Vga::Cirrus.into_arguments(), vec!["-vga", "cirrus"]);
    assert_eq!(Vga::Std.into_arguments(), vec!["-vga", "std"]);
    assert_eq!(Vga::VMWare.into_arguments(), vec!["-vga", "vmware"]);
    assert_eq!(Vga::Qxl.into_arguments(), vec!["-vga", "qxl"]);
    assert_eq!(Vga::Tcx.into_arguments(), vec!["-vga", "tcx"]);
    assert_eq!(Vga::Cg3.into_arguments(), vec!["-vga", "cg3"]);
    assert_eq!(Vga::Virtio.into_arguments(), vec!["-vga", "virtio"]);
}

#[test]
fn vga_keywords_are_lower_case() {
    let cards = [
        Vga::Off,
        Vga::Cirrus,
        Vga::Std,
        Vga::VMWare,
        Vga::Qxl,
        Vga::Tcx,
        Vga::Cg3,
        Vga::Virtio,
    ];
    for card in cards {
        let args = card.into_arguments();
        assert!(!args[1].is_empty());
        assert!(args[1].chars().all(|c| c.is_ascii_lowercase() || c.is_ascii_digit()));
    }
}

#[test]
fn display_off_and_sdl() {
    assert_eq!(Display::Off.into_arguments(), vec!["-display", "none"]);
    assert_eq!(Display::Sdl.into_arguments(), vec!["-display", "sdl"]);
}

#[test]
fn display_vnc_plain() {
    let vnc = Vnc::new("127.0.0.1", 1);
    assert_eq!(Display::Vnc(vnc).into_arguments(), vec!["-display", "vnc=127.0.0.1:1"]);
}

#[test]
fn display_vnc_with_websocket() {
    let vnc = Vnc::with_websocket("localhost", 0, 5700);
    assert_eq!(
        Display::Vnc(vnc).into_arguments(),
        vec!["-display", "vnc=localhost:0,websocket=5700"]
    );
}

#[test]
fn display_vnc_with_password() {
    let mut vnc = Vnc::new("0.0.0.0", 12);
    vnc.use_password(true);
    assert_eq!(Display::Vnc(vnc).into_arguments(), vec!["-display", "vnc=0.0.0.0:12,password"]);
}

#[test]
fn display_vnc_with_websocket_and_password() {
    let mut vnc = Vnc::with_websocket("host", 65535, 65535);
    vnc.use_password(true);
    assert_eq!(
        Display::Vnc(vnc).into_arguments(),
        vec!["-display", "vnc=host:65535,websocket=65535,password"]
    );
}

#[test]
fn display_vnc_password_can_be_taken_back() {
    let mut vnc = Vnc::new("host", 3);
    vnc.use_password(true);
    vnc.use_password(false);
    assert_eq!(Display::Vnc(vnc).into_arguments(), vec!["-display", "vnc=host:3"]);
}

#[test]
fn display_vnc_with_empty_host() {
    let vnc = Vnc::new("", 0);
    assert_eq!(Display::Vnc(vnc).into_arguments(), vec!["-display", "vnc=:0"]);
}
