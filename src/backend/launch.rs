//! The instance-launch path.
//!
//! A launch provisions a boot image backed by a base image with
//! *qemu-img create*, then starts the hypervisor for the guest architecture
//! against that boot image, with hardware acceleration required. [`Launch`]
//! decides each step from the outcome of the previous one; the caller runs
//! the commands it hands out and reports back.
//!
//! The commands are built here as plain values:
//! [`provisioning_command`] and [`hypervisor_command`].
//!
//! If a file already exists at the boot image path, *qemu-img create*
//! replaces it: a launch always starts from a fresh boot image.

use vstd::prelude::*;
use crate::backend::qemu::{QemuArch, executable_name};

verus! {

/// A program to run and the arguments to run it with.
#[derive(Debug)]
pub struct Invocation {
    pub program: String,
    pub args: Vec<String>,
}

/// The characters of each string in `v`.
pub open spec fn strings_view(v: Seq<String>) -> Seq<Seq<char>> {
    v.map_values(|s: String| s@)
}

impl Invocation {
    /// This invocation runs `program` with the arguments `args`.
    pub open spec fn runs(&self, program: Seq<char>, args: Seq<Seq<char>>) -> bool {
        &&& self.program@ == program
        &&& strings_view(self.args@) == args
    }
}

/// The tool that creates boot images.
pub open spec fn provisioning_tool() -> Seq<char> {
    "qemu-img"@
}

/// Arguments that create `boot` as a qcow2 image whose unmodified blocks are
/// read from the qcow2 image `base`, which is left as it is.
pub open spec fn provisioning_args(base: Seq<char>, boot: Seq<char>) -> Seq<Seq<char>> {
    seq!["create"@, "-f"@, "qcow2"@, "-F"@, "qcow2"@, "-b"@, base, boot]
}

/// Arguments that boot the hypervisor from `boot` with hardware acceleration
/// required: the hypervisor fails rather than fall back to emulation.
pub open spec fn hypervisor_args(boot: Seq<char>) -> Seq<Seq<char>> {
    seq!["-enable-kvm"@, "-hda"@, boot]
}

/// The command that creates `boot_image` from `base_image`.
pub fn provisioning_command(base_image: &str, boot_image: &str) -> (r: Invocation)
    ensures
        r.runs(provisioning_tool(), provisioning_args(base_image@, boot_image@)),
{
    let args = vec![
        "create".to_owned(),
        "-f".to_owned(),
        "qcow2".to_owned(),
        "-F".to_owned(),
        "qcow2".to_owned(),
        "-b".to_owned(),
        base_image.to_owned(),
        boot_image.to_owned(),
    ];
    let r = Invocation { program: "qemu-img".to_owned(), args };
    assert(strings_view(r.args@) =~= provisioning_args(base_image@, boot_image@));
    r
}

/// The command that starts the hypervisor for `arch` on `boot_image`.
pub fn hypervisor_command(arch: QemuArch, boot_image: &str) -> (r: Invocation)
    ensures
        r.runs(executable_name(arch), hypervisor_args(boot_image@)),
{
    let args = vec!["-enable-kvm".to_owned(), "-hda".to_owned(), boot_image.to_owned()];
    let r = Invocation { program: arch.qemu_executable().to_owned(), args };
    assert(strings_view(r.args@) =~= hypervisor_args(boot_image@));
    r
}

/// Why a launch failed. Both kinds are final for the launch.
#[derive(Clone, Copy, Debug, PartialEq, Eq, Structural)]
pub enum LaunchError {
    /// The boot image could not be created.
    ProvisioningError,
    /// The hypervisor could not be started.
    SpawnError,
}

/// Where a launch stands.
#[derive(Clone, Copy, Debug, PartialEq, Eq, Structural)]
pub enum Phase {
    /// Nothing has been done yet.
    Requested,
    /// The boot image is being created.
    Provisioning,
    /// The hypervisor is being started.
    Spawning,
    /// The hypervisor runs; its process belongs to the caller.
    Running,
    /// The launch failed.
    Failed(LaunchError),
}

/// What the caller reports to a launch.
#[derive(Clone, Copy, Debug, PartialEq, Eq, Structural)]
pub enum Event {
    /// Begin the launch.
    Start,
    /// The command of the current step completed: the boot image was created,
    /// or the hypervisor process exists.
    Succeeded,
    /// The command of the current step could not be run or reported failure.
    Failed,
}

/// What the caller is to do next.
#[derive(Debug)]
pub enum Action {
    /// Run this command to completion and report whether it succeeded.
    Provision(Invocation),
    /// Start this command, without waiting for it, and report whether it
    /// started.
    Spawn(Invocation),
    /// The launch succeeded: the started process belongs to the caller.
    HandOver,
    /// The launch failed. A boot image that was created stays where it is.
    Fail(LaunchError),
    /// The event does not apply in the current phase; nothing to do.
    Ignore,
}

/// The phase that follows `phase` on `event`. Events that do not apply leave
/// the phase as it is.
pub open spec fn next_phase(phase: Phase, event: Event) -> Phase {
    match (phase, event) {
        (Phase::Requested, Event::Start) => Phase::Provisioning,
        (Phase::Provisioning, Event::Succeeded) => Phase::Spawning,
        (Phase::Provisioning, Event::Failed) => Phase::Failed(LaunchError::ProvisioningError),
        (Phase::Spawning, Event::Succeeded) => Phase::Running,
        (Phase::Spawning, Event::Failed) => Phase::Failed(LaunchError::SpawnError),
        _ => phase,
    }
}

/// One attempt to launch an instance of `arch` that boots from `boot_image`,
/// a new image backed by `base_image`.
///
/// The architecture and both paths are fixed when the launch is made, so a
/// boot image is only ever provisioned for a resolved architecture and base
/// image. Provisioning strictly precedes spawning, and nothing is retried.
#[derive(Debug)]
pub struct Launch {
    pub arch: QemuArch,
    pub base_image: String,
    pub boot_image: String,
    pub phase: Phase,
}

impl Launch {
    /// `a` is what `self` hands out on `event`.
    pub open spec fn action_on(&self, event: Event, a: Action) -> bool {
        match (self.phase, event) {
            (Phase::Requested, Event::Start) => a matches Action::Provision(inv) && inv.runs(
                provisioning_tool(),
                provisioning_args(self.base_image@, self.boot_image@),
            ),
            (Phase::Provisioning, Event::Succeeded) => a matches Action::Spawn(inv) && inv.runs(
                executable_name(self.arch),
                hypervisor_args(self.boot_image@),
            ),
            (Phase::Provisioning, Event::Failed) => a matches Action::Fail(
                LaunchError::ProvisioningError,
            ),
            (Phase::Spawning, Event::Succeeded) => a is HandOver,
            (Phase::Spawning, Event::Failed) => a matches Action::Fail(LaunchError::SpawnError),
            _ => a is Ignore,
        }
    }

    /// A launch of `arch` from `base_image` to `boot_image` that has not begun.
    pub fn new(arch: QemuArch, base_image: &str, boot_image: &str) -> (r: Launch)
        ensures
            r.arch == arch,
            r.base_image@ == base_image@,
            r.boot_image@ == boot_image@,
            r.phase == Phase::Requested,
    {
        Launch {
            arch,
            base_image: base_image.to_owned(),
            boot_image: boot_image.to_owned(),
            phase: Phase::Requested,
        }
    }

    /// Take the launch one step on `event` and say what the caller is to do.
    pub fn advance(&mut self, event: Event) -> (a: Action)
        ensures
            old(self).action_on(event, a),
            final(self).phase == next_phase(old(self).phase, event),
            final(self).arch == old(self).arch,
            final(self).base_image@ == old(self).base_image@,
            final(self).boot_image@ == old(self).boot_image@,
    {
        match (self.phase, event) {
            (Phase::Requested, Event::Start) => {
                self.phase = Phase::Provisioning;
                Action::Provision(provisioning_command(self.base_image.as_str(), self.boot_image.as_str()))
            },
            (Phase::Provisioning, Event::Succeeded) => {
                self.phase = Phase::Spawning;
                Action::Spawn(hypervisor_command(self.arch, self.boot_image.as_str()))
            },
            (Phase::Provisioning, Event::Failed) => {
                self.phase = Phase::Failed(LaunchError::ProvisioningError);
                Action::Fail(LaunchError::ProvisioningError)
            },
            (Phase::Spawning, Event::Succeeded) => {
                self.phase = Phase::Running;
                Action::HandOver
            },
            (Phase::Spawning, Event::Failed) => {
                self.phase = Phase::Failed(LaunchError::SpawnError);
                Action::Fail(LaunchError::SpawnError)
            },
            _ => Action::Ignore,
        }
    }
}

/// The phase that a launch in `phase` reaches on `events`, in order.
pub open spec fn phase_after(phase: Phase, events: Seq<Event>) -> Phase
    decreases events.len(),
{
    if events.len() == 0 {
        phase
    } else {
        phase_after(next_phase(phase, events[0]), events.drop_first())
    }
}

/// The hypervisor is started only right after the boot image was created:
/// a launch enters the spawning phase only from provisioning, on success.
pub proof fn lemma_spawn_follows_provisioning(phase: Phase, event: Event)
    ensures
        next_phase(phase, event) == Phase::Spawning ==> phase == Phase::Spawning || (phase
            == Phase::Provisioning && event == Event::Succeeded),
{
}

/// A launch that has failed stays failed with the same error, whatever comes
/// after.
pub proof fn lemma_failure_is_final(err: LaunchError, events: Seq<Event>)
    ensures
        phase_after(Phase::Failed(err), events) == Phase::Failed(err),
    decreases events.len(),
{
    if events.len() > 0 {
        lemma_failure_is_final(err, events.drop_first());
    }
}

/// A launch whose hypervisor runs stays running, whatever comes after.
pub proof fn lemma_running_is_final(events: Seq<Event>)
    ensures
        phase_after(Phase::Running, events) == Phase::Running,
    decreases events.len(),
{
    if events.len() > 0 {
        lemma_running_is_final(events.drop_first());
    }
}

/// `phase_after` on `first` followed by `rest` goes on from where `first` ends.
proof fn lemma_phase_after_concat(phase: Phase, first: Seq<Event>, rest: Seq<Event>)
    ensures
        phase_after(phase, first + rest) == phase_after(phase_after(phase, first), rest),
    decreases first.len(),
{
    if first.len() > 0 {
        assert((first + rest)[0] == first[0]);
        assert((first + rest).drop_first() =~= first.drop_first() + rest);
        lemma_phase_after_concat(next_phase(phase, first[0]), first.drop_first(), rest);
    } else {
        assert(first + rest =~= rest);
    }
}

/// When the boot image is created and the hypervisor starts, the launch ends
/// with the hypervisor running, and later events change nothing.
pub proof fn lemma_launch_succeeds(later: Seq<Event>)
    ensures
        phase_after(Phase::Requested, seq![Event::Start, Event::Succeeded, Event::Succeeded] + later)
            == Phase::Running,
{
    let first = seq![Event::Start, Event::Succeeded, Event::Succeeded];
    lemma_phase_after_concat(Phase::Requested, first, later);
    assert(phase_after(Phase::Requested, first) == Phase::Running) by {
        reveal_with_fuel(phase_after, 4);
        assert(first.drop_first() =~= seq![Event::Succeeded, Event::Succeeded]);
        assert(first.drop_first().drop_first() =~= seq![Event::Succeeded]);
        assert(first.drop_first().drop_first().drop_first() =~= Seq::<Event>::empty());
    }
    lemma_running_is_final(later);
}

/// When the boot image cannot be created, the launch fails with a
/// provisioning error and never starts the hypervisor, whatever comes after.
pub proof fn lemma_provisioning_failure(later: Seq<Event>)
    ensures
        phase_after(Phase::Requested, seq![Event::Start, Event::Failed] + later)
            == Phase::Failed(LaunchError::ProvisioningError),
{
    let first = seq![Event::Start, Event::Failed];
    lemma_phase_after_concat(Phase::Requested, first, later);
    assert(phase_after(Phase::Requested, first) == Phase::Failed(LaunchError::ProvisioningError))
        by {
        reveal_with_fuel(phase_after, 3);
        assert(first.drop_first() =~= seq![Event::Failed]);
        assert(first.drop_first().drop_first() =~= Seq::<Event>::empty());
    }
    lemma_failure_is_final(LaunchError::ProvisioningError, later);
}

/// When the boot image is created but the hypervisor cannot be started, the
/// launch fails with a spawn error, whatever comes after.
pub proof fn lemma_spawn_failure(later: Seq<Event>)
    ensures
        phase_after(Phase::Requested, seq![Event::Start, Event::Succeeded, Event::Failed] + later)
            == Phase::Failed(LaunchError::SpawnError),
{
    let first = seq![Event::Start, Event::Succeeded, Event::Failed];
    lemma_phase_after_concat(Phase::Requested, first, later);
    assert(phase_after(Phase::Requested, first) == Phase::Failed(LaunchError::SpawnError)) by {
        reveal_with_fuel(phase_after, 4);
        assert(first.drop_first() =~= seq![Event::Succeeded, Event::Failed]);
        assert(first.drop_first().drop_first() =~= seq![Event::Failed]);
        assert(first.drop_first().drop_first().drop_first() =~= Seq::<Event>::empty());
    }
    lemma_failure_is_final(LaunchError::SpawnError, later);
}

/// Two launches from one base image to different boot image paths create
/// different files, both backed by that base image, and boot their hypervisors
/// from different files: neither writes to the other's image or to the base.
pub proof fn lemma_boot_images_independent(base: Seq<char>, boot1: Seq<char>, boot2: Seq<char>)
    requires
        boot1 != boot2,
    ensures
        provisioning_args(base, boot1)[7] != provisioning_args(base, boot2)[7],
        provisioning_args(base, boot1)[6] == base,
        provisioning_args(base, boot2)[6] == base,
        hypervisor_args(boot1)[2] != hypervisor_args(boot2)[2],
{
}

} // verus!
