use vmexec::backend::launch::{
    hypervisor_command, provisioning_command, Action, Event, Invocation, Launch, LaunchError, Phase,
};
use vmexec::backend::qemu::QemuArch;

fn assert_runs(inv: &Invocation, program: &str, args: &[&str]) {
    assert_eq!(inv.program, program);
    let got: Vec<&str> = inv.args.iter().map(|s| s.as_str()).collect();
    assert_eq!(got, args);
}

#[test]
fn provisioning_command_derives_boot_image_from_base() {
    let inv = provisioning_command("/images/base.qcow2", "/tmp/boot-1.qcow2");
    assert_runs(
        &inv,
        "qemu-img",
        &["create", "-f", "qcow2", "-F", "qcow2", "-b", "/images/base.qcow2", "/tmp/boot-1.qcow2"],
    );
}

#[test]
fn hypervisor_command_requires_acceleration() {
    let inv = hypervisor_command(QemuArch::X86_64, "/tmp/boot-1.qcow2");
    assert_runs(&inv, "qemu-system-x86_64", &["-enable-kvm", "-hda", "/tmp/boot-1.qcow2"]);
    let inv = hypervisor_command(QemuArch::X86, "b.qcow2");
    assert_runs(&inv, "qemu-system-i386", &["-enable-kvm", "-hda", "b.qcow2"]);
}

#[test]
fn new_launch_has_not_begun() {
    let l = Launch::new(QemuArch::X86, "base", "boot");
    assert_eq!(l.arch, QemuArch::X86);
    assert_eq!(l.base_image, "base");
    assert_eq!(l.boot_image, "boot");
    assert_eq!(l.phase, Phase::Requested);
}

#[test]
fn launch_of_64_bit_guest_from_base_image() {
    let mut l = Launch::new(QemuArch::X86_64, "/images/base.qcow2", "/tmp/boot-1.qcow2");
    match l.advance(Event::Start) {
        Action::Provision(inv) => assert_runs(
            &inv,
            "qemu-img",
            &["create", "-f", "qcow2", "-F", "qcow2", "-b", "/images/base.qcow2", "/tmp/boot-1.qcow2"],
        ),
        other => panic!("expected provisioning, got {:?}", other),
    }
    assert_eq!(l.phase, Phase::Provisioning);
    match l.advance(Event::Succeeded) {
        Action::Spawn(inv) => {
            assert_runs(&inv, "qemu-system-x86_64", &["-enable-kvm", "-hda", "/tmp/boot-1.qcow2"])
        }
        other => panic!("expected spawn, got {:?}", other),
    }
    assert_eq!(l.phase, Phase::Spawning);
    assert!(matches!(l.advance(Event::Succeeded), Action::HandOver));
    assert_eq!(l.phase, Phase::Running);
}

#[test]
fn missing_base_image_fails_provisioning_without_spawn() {
    let mut l = Launch::new(QemuArch::X86_64, "/nonexistent/base.qcow2", "/tmp/boot-2.qcow2");
    assert!(matches!(l.advance(Event::Start), Action::Provision(_)));
    assert!(matches!(
        l.advance(Event::Failed),
        Action::Fail(LaunchError::ProvisioningError)
    ));
    assert_eq!(l.phase, Phase::Failed(LaunchError::ProvisioningError));
    assert!(matches!(l.advance(Event::Succeeded), Action::Ignore));
    assert_eq!(l.phase, Phase::Failed(LaunchError::ProvisioningError));
}

#[test]
fn missing_hypervisor_fails_spawn_and_keeps_boot_image() {
    let mut l = Launch::new(QemuArch::X86, "/images/base.qcow2", "/tmp/boot-3.qcow2");
    l.advance(Event::Start);
    l.advance(Event::Succeeded);
    assert!(matches!(l.advance(Event::Failed), Action::Fail(LaunchError::SpawnError)));
    assert_eq!(l.phase, Phase::Failed(LaunchError::SpawnError));
    assert!(matches!(l.advance(Event::Start), Action::Ignore));
    assert_eq!(l.boot_image, "/tmp/boot-3.qcow2");
}

#[test]
fn events_out_of_order_are_ignored() {
    let mut l = Launch::new(QemuArch::X86, "a", "b");
    assert!(matches!(l.advance(Event::Succeeded), Action::Ignore));
    assert!(matches!(l.advance(Event::Failed), Action::Ignore));
    assert_eq!(l.phase, Phase::Requested);
    l.advance(Event::Start);
    assert!(matches!(l.advance(Event::Start), Action::Ignore));
    assert_eq!(l.phase, Phase::Provisioning);
    l.advance(Event::Succeeded);
    l.advance(Event::Succeeded);
    assert!(matches!(l.advance(Event::Failed), Action::Ignore));
    assert_eq!(l.phase, Phase::Running);
}

#[test]
fn two_launches_from_one_base_use_separate_boot_images() {
    let mut first = Launch::new(QemuArch::X86_64, "/images/base.qcow2", "/tmp/boot-a.qcow2");
    let mut second = Launch::new(QemuArch::X86_64, "/images/base.qcow2", "/tmp/boot-b.qcow2");
    let (a, b) = match (first.advance(Event::Start), second.advance(Event::Start)) {
        (Action::Provision(a), Action::Provision(b)) => (a, b),
        other => panic!("expected provisioning, got {:?}", other),
    };
    assert_eq!(a.args[6], "/images/base.qcow2");
    assert_eq!(b.args[6], "/images/base.qcow2");
    assert_ne!(a.args[7], b.args[7]);
    for l in [&mut first, &mut second] {
        l.advance(Event::Succeeded);
        assert!(matches!(l.advance(Event::Succeeded), Action::HandOver));
        assert_eq!(l.phase, Phase::Running);
    }
}
