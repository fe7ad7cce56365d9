use qemu::display::{Display, Vga, Vnc};
use qemu::error::InitError;
use qemu::launch::Launch;
use qemu::machine::{Drive, DriveMedia, Memory, Processors, TapInterface};
use qemu::resolve::Candidate;
use qemu::{Builder, Parameter, Setting};

fn on_path(path: &str) -> Vec<Candidate> {
    vec![Candidate { path: path.to_string(), is_file: true }]
}

fn command(builder: Builder) -> (String, Vec<String>) {
    match builder.start() {
        Launch::Spawn(invocation) => {
            assert!(!invocation.capture_stderr);
            assert_eq!(invocation.check_delay_ms, None);
            (invocation.program, invocation.args)
        }
        other => panic!("the launch does not begin with a spawn: {:?}", other),
    }
}

#[test]
fn builder_resolves_the_emulator_on_the_search_path() {
    let builder =
        Builder::new("qemu-system-x86_64", false, &on_path("/usr/bin/qemu-system-x86_64")).unwrap();
    let (program, args) = command(builder);
    assert_eq!(program, "/usr/bin/qemu-system-x86_64");
    assert!(args.is_empty());
}

#[test]
fn builder_takes_a_path_as_given() {
    let builder = Builder::new("./build/qemu", true, &Vec::new()).unwrap();
    let (program, _) = command(builder);
    assert_eq!(program, "./build/qemu");
}

#[test]
fn builder_fails_at_once_when_the_emulator_is_missing() {
    let candidates = vec![Candidate { path: "/usr/bin/qemu".to_string(), is_file: false }];
    match Builder::new("qemu", false, &candidates) {
        Err(error) => {
            assert!(matches!(&error, InitError::ExecutableNotFound { executable } if executable == "qemu"));
            assert_eq!(error.to_string(), "could not find QEMU executable: qemu");
        }
        Ok(_) => panic!("a missing emulator was accepted"),
    }
}

#[test]
fn builder_collects_settings_in_the_order_given() {
    let builder = Builder::new("qemu-system-x86_64", false, &on_path("/bin/qemu-system-x86_64"))
        .unwrap()
        .with(Setting::Processors(Processors::new(1).set_max_cpus(255)))
        .with(Setting::Memory(Memory::new(128)))
        .with(Setting::Display(Display::Sdl))
        .with(Setting::Vga(Vga::Std));
    let (program, args) = command(builder);
    assert_eq!(program, "/bin/qemu-system-x86_64");
    assert_eq!(
        args,
        vec!["-smp", "cpus=1,maxcpus=255", "-m", "size=128", "-display", "sdl", "-vga", "std"]
    );
}

#[test]
fn builder_keeps_a_setting_given_twice() {
    let builder = Builder::new("qemu", true, &Vec::new())
        .unwrap()
        .with(Setting::Vga(Vga::Qxl))
        .with(Setting::Memory(Memory::new(64)))
        .with(Setting::Vga(Vga::Off));
    let (_, args) = command(builder);
    assert_eq!(args, vec!["-vga", "qxl", "-m", "size=64", "-vga", "none"]);
}

#[test]
fn builder_takes_drives_and_interfaces() {
    let builder = Builder::new("qemu", true, &Vec::new())
        .unwrap()
        .with(Setting::Drive(Drive::new(DriveMedia::CDRom, "install.iso")))
        .with(Setting::NetworkInterface(TapInterface::with_mac_addr("tap0", "52:54:00:00:00:01")));
    let (_, args) = command(builder);
    assert_eq!(
        args,
        vec![
            "-drive",
            "file=install.iso,media=cdrom",
            "-netdev",
            "tap,id=tap0,ifname=tap0",
            "-device",
            "virtio-net,netdev=tap0,mac=52:54:00:00:00:01",
        ]
    );
}

#[test]
fn setting_is_written_as_its_kind() {
    assert_eq!(
        Setting::Processors(Processors::with(Some(2), None, None).unwrap()).into_arguments(),
        vec!["-smp", "cores=2"]
    );
    assert_eq!(
        Setting::Memory(Memory::with(256, 2, 1024)).into_arguments(),
        vec!["-m", "size=256,slots=2,maxmem=1024"]
    );
    assert_eq!(
        Setting::Display(Display::Vnc(Vnc::new("::1", 5))).into_arguments(),
        vec!["-display", "vnc=::1:5"]
    );
    assert_eq!(Setting::Vga(Vga::Virtio).into_arguments(), vec!["-vga", "virtio"]);
    assert_eq!(
        Setting::Drive(Drive::new(DriveMedia::Disk, "a.img")).into_arguments(),
        vec!["-drive", "file=a.img,media=disk"]
    );
    assert_eq!(
        Setting::NetworkInterface(TapInterface::new("tap9")).into_arguments(),
        vec!["-netdev", "tap,id=tap9,ifname=tap9", "-device", "virtio-net,netdev=tap9"]
    );
}

#[test]
fn init_error_describes_itself() {
    let missing = InitError::ExecutableNotFound { executable: "qemu-system-arm".to_string() };
    assert_eq!(missing.to_string(), "could not find QEMU executable: qemu-system-arm");
    let invalid = InitError::InvalidConfig {
        msg: "cpu cores, threads, or sockets must be defined".to_string(),
    };
    assert_eq!(
        invalid.to_string(),
        "invalid QEMU configuration: cpu cores, threads, or sockets must be defined"
    );
}

#[test]
fn parameter_of_a_word_has_a_name_only() {
    let flag: &'static str = "nographic";
    assert_eq!(flag.name(), "nographic");
    assert_eq!(flag.value(), None);
    assert_eq!(flag.take(), ("nographic".to_string(), None));
    let owned = String::from("snapshot");
    assert_eq!(owned.name(), "snapshot");
    assert_eq!(owned.value(), None);
    assert_eq!(owned.take(), ("snapshot".to_string(), None));
}

#[test]
fn parameter_of_a_pair_has_a_name_and_a_value() {
    let pair = ("name", "My VM");
    assert_eq!(pair.name(), "name");
    assert_eq!(pair.value(), Some("My VM"));
    assert_eq!(pair.take(), ("name".to_string(), Some("My VM".to_string())));
    let owned = (String::from("display"), String::from("sdl"));
    assert_eq!(owned.name(), "display");
    assert_eq!(owned.value(), Some("sdl"));
    assert_eq!(owned.take(), ("display".to_string(), Some("sdl".to_string())));
}
