//! Subcommand dispatch.
//!
//! One invocation carries zero or one argument. The dispatcher maps the
//! argument, together with one platform capability flag, to the single
//! action the process performs. The flag says whether the platform's
//! clipboard requires the publishing process to stay alive until the
//! data has been read ("offer until read"); on such a platform the
//! argument-less invocation detaches a helper process instead of
//! publishing in place, and the helper is re-invoked with an internal
//! marker argument that is honored only there.

use vstd::prelude::*;

verus! {

/// The single action one invocation performs.
#[derive(Debug, Clone, Copy, PartialEq, Eq, Structural)]
pub enum Plan {
    /// Print the usage text and exit successfully.
    PrintUsage,
    /// Read the clipboard image and save it as a PNG file.
    SaveFromClipboard,
    /// Capture the primary screen and publish it to the clipboard,
    /// synchronously, in this process.
    CaptureAndPublish,
    /// Spawn one detached copy of the program, invoked with the internal
    /// marker argument, and exit at once without blocking.
    SpawnDetached,
    /// The argument is no known subcommand: fail, embedding the
    /// offending token and the usage text in the diagnostic message.
    RejectUnknown,
}

/// Whether executing the plan reads or writes the system clipboard.
pub open spec fn touches_clipboard(p: Plan) -> bool {
    p == Plan::SaveFromClipboard || p == Plan::CaptureAndPublish
}

/// Whether executing the plan captures the screen.
pub open spec fn touches_screen(p: Plan) -> bool {
    p == Plan::CaptureAndPublish
}

/// Whether executing the plan spawns a detached child process.
pub open spec fn spawns_child(p: Plan) -> bool {
    p == Plan::SpawnDetached
}

/// The internal marker argument: the detached helper is invoked with it
/// so that it runs the synchronous capture-and-publish path.
pub open spec fn daemon_marker_spec() -> Seq<char> {
    "__self_is_daemonized"@
}

/// The marker argument handed to the detached helper process.
pub fn daemon_marker() -> (r: &'static str)
    ensures
        r@ == daemon_marker_spec(),
{
    "__self_is_daemonized"
}

/// The dispatch map: which action belongs to which argument, on a
/// platform with (`offer_until_read`) or without the offer-until-read
/// clipboard requirement.
pub open spec fn plan_spec(arg: Option<Seq<char>>, offer_until_read: bool) -> Plan {
    match arg {
        None => if offer_until_read {
            Plan::SpawnDetached
        } else {
            Plan::CaptureAndPublish
        },
        Some(s) => if s == "help"@ {
            Plan::PrintUsage
        } else if s == "save"@ {
            Plan::SaveFromClipboard
        } else if s == daemon_marker_spec() && offer_until_read {
            Plan::CaptureAndPublish
        } else {
            Plan::RejectUnknown
        },
    }
}

/// Maps the first command-line argument to the action to perform.
///
/// With no argument: capture and publish here, or detach a helper when
/// the platform requires the publisher to stay alive. `help` prints the
/// usage. `save` writes the clipboard image to a file. The internal
/// marker is honored only on the offer-until-read platform; everything
/// else is rejected.
pub fn plan(arg: &Option<String>, offer_until_read: bool) -> (p: Plan)
    ensures
        p == plan_spec(arg.deep_view(), offer_until_read),
{
    match arg {
        None => if offer_until_read {
            Plan::SpawnDetached
        } else {
            Plan::CaptureAndPublish
        },
        Some(s) => {
            if *s == String::from_str("help") {
                Plan::PrintUsage
            } else if *s == String::from_str("save") {
                Plan::SaveFromClipboard
            } else if *s == String::from_str(daemon_marker()) && offer_until_read {
                Plan::CaptureAndPublish
            } else {
                Plan::RejectUnknown
            }
        },
    }
}

/// The `help` subcommand always prints the usage and nothing more: it
/// never touches the clipboard or the screen and never spawns a child,
/// on either kind of platform.
pub proof fn lemma_help_is_pure(offer_until_read: bool)
    ensures
        plan_spec(Some("help"@), offer_until_read) == Plan::PrintUsage,
        !touches_clipboard(plan_spec(Some("help"@), offer_until_read)),
        !touches_screen(plan_spec(Some("help"@), offer_until_read)),
        !spawns_child(plan_spec(Some("help"@), offer_until_read)),
{
}

/// Argument-less dispatch: where the clipboard persists after process
/// exit, the capture and publish happen synchronously in this process
/// and no child is spawned; where the platform requires offer-until-read
/// semantics, exactly one detached child is spawned and this process
/// itself touches neither screen nor clipboard.
pub proof fn lemma_no_argument_dispatch()
    ensures
        plan_spec(None, false) == Plan::CaptureAndPublish,
        !spawns_child(plan_spec(None, false)),
        plan_spec(None, true) == Plan::SpawnDetached,
        !touches_clipboard(plan_spec(None, true)),
        !touches_screen(plan_spec(None, true)),
{
}

/// The detached helper's marker argument runs the synchronous
/// capture-and-publish path on the platform that defines it, and is an
/// unknown subcommand anywhere else.
pub proof fn lemma_marker_honored_only_with_offer_until_read()
    ensures
        plan_spec(Some(daemon_marker_spec()), true) == Plan::CaptureAndPublish,
        plan_spec(Some(daemon_marker_spec()), false) == Plan::RejectUnknown,
{
    reveal_strlit("__self_is_daemonized");
    reveal_strlit("help");
    reveal_strlit("save");
    assert(daemon_marker_spec().len() == 20);
    assert("help"@.len() == 4);
    assert("save"@.len() == 4);
}

} // verus!
