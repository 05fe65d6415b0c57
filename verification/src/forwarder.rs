use vstd::prelude::*;
use vstd::utf8::encode_utf8;

use crate::channel::Channel;
use crate::channel::log;
use crate::render::fatal_text;
use crate::render::render_fatal_line;

verus! {

/// The process-wide state of the crash-handler installation latch.
///
/// `installed` says whether the fatal-error hook has been redirected to the
/// diagnostic channel; `hook_swaps` counts how many times the underlying
/// hook has actually been replaced. The latch starts uninstalled, becomes
/// installed on the first effective installation, and is never uninstalled.
///
/// The guest runtime modelled here is single-threaded, so the one-time
/// latch is a plain boolean check; under a threaded runtime the same
/// transition would sit behind a once-primitive, with the same semantics.
pub struct PanicForwarder {
    installed: bool,
    hook_swaps: u64,
}

/// One installation attempt, on the latch state `(installed, hook_swaps)`.
///
/// In a diagnostic build (`debug` true) the hook is replaced exactly when
/// it has not been replaced before; in a production build the installer is
/// compiled down to a no-op and the latch never moves.
pub open spec fn register_step(installed: bool, hook_swaps: u64, debug: bool) -> (bool, u64) {
    if debug && !installed {
        (true, (hook_swaps + 1) as u64)
    } else {
        (installed, hook_swaps)
    }
}

/// `n` successive installation attempts from the latch state
/// `(installed, hook_swaps)`.
pub open spec fn register_steps(installed: bool, hook_swaps: u64, debug: bool, n: nat) -> (
    bool,
    u64,
)
    decreases n,
{
    if n == 0 {
        (installed, hook_swaps)
    } else {
        let prior = register_steps(installed, hook_swaps, debug, (n - 1) as nat);
        register_step(prior.0, prior.1, debug)
    }
}

impl PanicForwarder {
    /// Whether the fatal-error hook has been redirected.
    pub closed spec fn spec_installed(&self) -> bool {
        self.installed
    }

    /// How many times the underlying hook has been replaced.
    pub closed spec fn spec_hook_swaps(&self) -> u64 {
        self.hook_swaps
    }

    /// The latch never replaces the hook more than once: the swap count is
    /// one exactly when the handler is installed, and zero before.
    pub open spec fn wf(&self) -> bool {
        self.spec_hook_swaps() == if self.spec_installed() {
            1u64
        } else {
            0u64
        }
    }

    /// The latch as it stands when the process starts: nothing installed,
    /// the default fatal-error hook still in place.
    pub fn new() -> (forwarder: PanicForwarder)
        ensures
            !forwarder.spec_installed(),
            forwarder.spec_hook_swaps() == 0,
            forwarder.wf(),
    {
        PanicForwarder { installed: false, hook_swaps: 0 }
    }

    /// Whether the crash handler is installed.
    pub fn installed(&self) -> (r: bool)
        ensures
            r == self.spec_installed(),
    {
        self.installed
    }

    /// How many times the underlying hook has been replaced.
    pub fn hook_swaps(&self) -> (r: u64)
        ensures
            r == self.spec_hook_swaps(),
    {
        self.hook_swaps
    }
}

/// Install the crash handler: redirect the runtime's fatal-error reporting
/// to the diagnostic channel.
///
/// Safe to call any number of times: the hook is replaced only on the
/// first effective call, and a production build (`debug` false) leaves the
/// latch untouched altogether.
pub fn register_panic(forwarder: &mut PanicForwarder, debug: bool)
    requires
        old(forwarder).wf(),
    ensures
        final(forwarder).wf(),
        (final(forwarder).spec_installed(), final(forwarder).spec_hook_swaps()) == register_step(
            old(forwarder).spec_installed(),
            old(forwarder).spec_hook_swaps(),
            debug,
        ),
        final(forwarder).spec_installed() == (old(forwarder).spec_installed() || debug),
{
    if debug && !forwarder.installed {
        forwarder.installed = true;
        forwarder.hook_swaps = forwarder.hook_swaps + 1;
    }
}

/// Law: installing is idempotent. From any well-formed latch state, `n`
/// installation attempts in the same build mode leave the latch exactly
/// where a single attempt does, for every `n >= 1`.
pub proof fn lemma_register_idempotent(installed: bool, hook_swaps: u64, debug: bool, n: nat)
    requires
        1 <= n,
        hook_swaps == if installed {
            1u64
        } else {
            0u64
        },
    ensures
        register_steps(installed, hook_swaps, debug, n) == register_step(
            installed,
            hook_swaps,
            debug,
        ),
    decreases n,
{
    let one = register_step(installed, hook_swaps, debug);
    if n == 1 {
        assert(register_steps(installed, hook_swaps, debug, 1) == register_step(
            register_steps(installed, hook_swaps, debug, 0).0,
            register_steps(installed, hook_swaps, debug, 0).1,
            debug,
        ));
    } else {
        lemma_register_idempotent(installed, hook_swaps, debug, (n - 1) as nat);
        assert(register_steps(installed, hook_swaps, debug, n) == register_step(
            one.0,
            one.1,
            debug,
        ));
        assert(register_step(one.0, one.1, debug) == one);
    }
}

/// Law: however many times the installer runs from process start in a
/// diagnostic build, even once, the hook is replaced exactly once and the
/// handler ends installed.
pub proof fn lemma_register_once_from_start(n: nat)
    requires
        1 <= n,
    ensures
        register_steps(false, 0, true, n) == (true, 1u64),
{
    lemma_register_idempotent(false, 0, true, n);
}

/// The installed handler's reaction to the runtime's fatal-error dispatch.
///
/// `info` is the runtime's own default rendering of the fatal error
/// (message and location). With the handler installed, exactly one crash
/// report — the word `program` followed by that rendering — is transmitted;
/// with it uninstalled, the channel sees nothing. Either way the runtime's
/// own termination policy then proceeds outside this library: the handler
/// augments termination, it never suppresses it.
pub fn on_fatal(forwarder: &PanicForwarder, channel: &mut Channel, info: &str)
    ensures
        forwarder.spec_installed() ==> final(channel)@ == old(channel)@.push(
            encode_utf8(fatal_text(info@)),
        ),
        !forwarder.spec_installed() ==> final(channel)@ == old(channel)@,
{
    if forwarder.installed() {
        let report = render_fatal_line(info);
        log(channel, report.as_str());
    }
}

} // verus!
