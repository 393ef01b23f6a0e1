//! Starting up and keeping up: the command line, changes of the configuration
//! file, and what is worth a line in the log.

use crate::text::{join3, same_text};
use vstd::prelude::*;

verus! {

/// The line that a failed call leaves in the log.
pub fn log_err<T>(context: &str, result: Result<T, String>) -> (r: Option<String>)
    ensures
        match result {
            Ok(_) => r is None,
            Err(e) => r is Some && r->0@ == context@ + ": "@ + e@,
        },
{
    match result {
        Ok(_) => None,
        Err(e) => Some(join3(context, ": ", e.as_str())),
    }
}

/// What draws on the screen.
#[derive(Clone, Copy, Debug, PartialEq, Eq, Structural)]
pub enum BackendKind {
    /// A window of another compositor.
    Winit,
    /// The display itself.
    Udev,
}

/// The place of the first argument of a text.
pub open spec fn argument(args: Seq<String>, text: Seq<char>) -> Option<int>
    decreases args.len(),
{
    if args.len() == 0 {
        None
    } else {
        match argument(args.drop_last(), text) {
            Some(k) => Some(k),
            None => if args.last()@ == text {
                Some(args.len() - 1)
            } else {
                None
            },
        }
    }
}

proof fn argument_stays(args: Seq<String>, text: Seq<char>, n: int)
    requires
        0 <= n <= args.len(),
        argument(args.take(n), text) is Some,
    ensures
        argument(args, text) == argument(args.take(n), text),
    decreases args.len(),
{
    if n < args.len() {
        assert(args.drop_last().take(n) =~= args.take(n));
        argument_stays(args.drop_last(), text, n);
    } else {
        assert(args.take(n) =~= args);
    }
}

/// The place of the first argument of a text.
pub fn find_argument(args: &Vec<String>, text: &str) -> (r: Option<usize>)
    ensures
        match r {
            Some(k) => argument(args@, text@) == Some(k as int) && k < args@.len(),
            None => argument(args@, text@) is None,
        },
{
    let mut i: usize = 0;
    while i < args.len()
        invariant
            i <= args@.len(),
            argument(args@.take(i as int), text@) is None,
        decreases args.len() - i,
    {
        assert(args@.take(i + 1).drop_last() =~= args@.take(i as int));
        assert(args@.take(i + 1).last() == args@[i as int]);
        if same_text(args[i].as_str(), text) {
            proof {
                argument_stays(args@, text@, i + 1);
            }
            return Some(i);
        }
        i += 1;
    }
    assert(args@.take(i as int) =~= args@);
    None
}

/// What draws on the screen: what follows the first `--backend`, where only
/// `udev` means the display; else a window inside another session, and the
/// display on bare metal.
pub open spec fn backend_for(args: Seq<String>, nested: bool) -> BackendKind {
    match argument(args, "--backend"@) {
        Some(k) if k + 1 < args.len() => if args[k + 1]@ == "udev"@ {
            BackendKind::Udev
        } else {
            BackendKind::Winit
        },
        _ => if nested {
            BackendKind::Winit
        } else {
            BackendKind::Udev
        },
    }
}

/// Decides what draws on the screen, from the command line and from whether
/// another session is running.
pub fn choose_backend(args: &Vec<String>, nested: bool) -> (r: BackendKind)
    ensures
        r == backend_for(args@, nested),
{
    if let Some(k) = find_argument(args, "--backend") {
        if k < args.len() - 1 {
            return if same_text(args[k + 1].as_str(), "udev") {
                BackendKind::Udev
            } else {
                BackendKind::Winit
            };
        }
    }
    if nested {
        BackendKind::Winit
    } else {
        BackendKind::Udev
    }
}

/// Whether only the configuration is to be checked.
pub fn checks_config(args: &Vec<String>) -> (r: bool)
    ensures
        r == (argument(args@, "--check-config"@) is Some),
{
    find_argument(args, "--check-config").is_some()
}

/// A file younger than this many milliseconds may still be being written.
pub const WRITE_SETTLE_MS: u64 = 100;

/// Whether the configuration file is to be read again: it has changed, and
/// has not been written to just now. Times are those of the last change, and
/// `age` is how long ago it was, where that is known.
pub fn should_reload(known: Option<u64>, current: Option<u64>, age: Option<u64>) -> (r: bool)
    ensures
        r == (current is Some && current != known && !(age matches Some(a) && a < WRITE_SETTLE_MS)),
{
    let changed = match current {
        Some(c) => match known {
            Some(k) => c != k,
            None => true,
        },
        None => false,
    };
    let fresh = match age {
        Some(a) => a < WRITE_SETTLE_MS,
        None => false,
    };
    changed && !fresh
}

/// The longest step of an animation, in milliseconds.
pub const MAX_FRAME_MS: u64 = 33;

/// The step of an animation: the time since the last frame, held down after a
/// pause.
pub fn frame_step(last: u64, now: u64) -> (r: u64)
    requires
        last <= now,
    ensures
        r == if now - last < MAX_FRAME_MS {
            now - last
        } else {
            MAX_FRAME_MS as int
        },
{
    let passed: u64 = now - last;
    if passed < MAX_FRAME_MS {
        passed
    } else {
        MAX_FRAME_MS
    }
}

} // verus!
