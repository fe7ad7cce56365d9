use qemu::error::Error;
use qemu::image::{Format, Image, ToolExit};

#[test]
fn string_representations() {
    assert_eq!(Format::Raw.to_string().as_str(), "raw");
    assert_eq!(Format::QCow.to_string().as_str(), "qcow");
    assert_eq!(Format::QCow2.to_string().as_str(), "qcow2");
    assert_eq!(Format::Vmdk.to_string().as_str(), "vmdk");
    assert_eq!(Format::Vdi.to_string().as_str(), "vdi");
    assert_eq!(Format::Vhdx.to_string().as_str(), "vhdx");
    assert_eq!(Format::Vpc.to_string().as_str(), "vpc");
}

#[test]
fn format_is_its_name_in_lower_case() {
    let formats = [
        Format::Raw,
        Format::QCow,
        Format::QCow2,
        Format::Vmdk,
        Format::Vdi,
        Format::Vhdx,
        Format::Vpc,
    ];
    for format in formats {
        assert_eq!(format.to_string(), format!("{:?}", format).to_lowercase());
    }
}

#[test]
fn image_keeps_what_it_was_made_with() {
    let image = Image::new("test.raw", Format::Raw, 536_870_912);
    assert_eq!(image.path, "test.raw");
    assert_eq!(image.format, Format::Raw);
    assert_eq!(image.size, 536_870_912);
}

#[test]
fn write_command_names_tool_format_path_and_size() {
    let image = Image::new("test.qcow2", Format::QCow2, 536_870_912);
    assert_eq!(
        image.write_command(),
        vec!["qemu-img", "create", "-f", "qcow2", "test.qcow2", "536870912"]
    );
}

#[test]
fn write_command_for_each_format() {
    let cases = [
        ("test.raw", Format::Raw, "raw"),
        ("test.qcow", Format::QCow, "qcow"),
        ("test.qcow2", Format::QCow2, "qcow2"),
        ("test.vmdk", Format::Vmdk, "vmdk"),
        ("test.vdi", Format::Vdi, "vdi"),
        ("test.vhdx", Format::Vhdx, "vhdx"),
        ("test.vpc", Format::Vpc, "vpc"),
    ];
    for (path, format, keyword) in cases {
        let image = Image::new(path, format, 536_870_912);
        assert_eq!(
            image.write_command(),
            vec!["qemu-img", "create", "-f", keyword, path, "536870912"]
        );
    }
}

#[test]
fn write_command_is_the_same_each_time() {
    let image = Image::new("disk.img", Format::Vdi, 1024);
    assert_eq!(image.write_command(), image.write_command());
}

#[test]
fn write_command_of_an_empty_image() {
    let image = Image::new("", Format::Raw, 0);
    assert_eq!(image.write_command(), vec!["qemu-img", "create", "-f", "raw", "", "0"]);
}

#[test]
fn write_result_of_success() {
    assert!(Image::write_result(ToolExit::Success).is_ok());
}

#[test]
fn write_result_of_failure_carries_the_output() {
    let exit = ToolExit::Failure { stdout: "qemu-img: test.raw: Invalid image size".to_string() };
    match Image::write_result(exit) {
        Err(Error::Other(text)) => assert_eq!(text, "qemu-img: test.raw: Invalid image size"),
        other => panic!("unexpected result: {:?}", other),
    }
}

#[test]
fn write_result_of_failure_without_output() {
    match Image::write_result(ToolExit::Failure { stdout: String::new() }) {
        Err(Error::Other(text)) => assert_eq!(text, ""),
        other => panic!("unexpected result: {:?}", other),
    }
}

#[test]
fn write_result_of_a_tool_that_did_not_run() {
    let cause = std::io::Error::new(std::io::ErrorKind::NotFound, "no qemu-img");
    match Image::write_result(ToolExit::NotRun(cause)) {
        Err(Error::Io(cause)) => {
            assert_eq!(cause.kind(), std::io::ErrorKind::NotFound);
            assert_eq!(cause.to_string(), "no qemu-img");
        }
        other => panic!("unexpected result: {:?}", other),
    }
}
