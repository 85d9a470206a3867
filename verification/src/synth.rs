//! Synthetic key-event plans. The interpreters compile a macro action into a
//! flat list of commands — press or release a key, or sleep — and the
//! unverified performer replays the list with the platform's input-injection
//! call. Every key command carries the synthetic tag, so the classifier can
//! recognize the event when it re-enters the hook and ignore it.

use vstd::prelude::*;

verus! {

/// The tag every synthetic key event carries in its auxiliary field. The
/// classifier passes events with this tag through untouched, which breaks
/// the injection feedback loop.
pub const SYNTHETIC_TAG: u64 = 0x12345678;

/// Whether a key event presses or releases its key.
#[derive(Debug, Clone, Copy, PartialEq, Eq, Structural)]
pub enum KeyEventType {
    Press,
    Release,
}

/// One command of a compiled macro plan.
#[derive(Debug, Clone, Copy, PartialEq, Eq, Structural)]
pub enum SynthCommand {
    /// Inject one key event, tagged with `tag`.
    Key { vk: u16, event: KeyEventType, tag: u64 },
    /// Sleep for `ms` milliseconds.
    SleepMs { ms: u64 },
}

/// A tagged synthetic press of `vk`.
pub open spec fn key_down(vk: u16) -> SynthCommand {
    SynthCommand::Key { vk, event: KeyEventType::Press, tag: SYNTHETIC_TAG }
}

/// A tagged synthetic release of `vk`.
pub open spec fn key_up(vk: u16) -> SynthCommand {
    SynthCommand::Key { vk, event: KeyEventType::Release, tag: SYNTHETIC_TAG }
}

/// The sleep an optional delay compiles to: one sleep command when the delay
/// is given, nothing otherwise.
pub open spec fn opt_sleep(delay: Option<u64>) -> Seq<SynthCommand> {
    match delay {
        Some(ms) => seq![SynthCommand::SleepMs { ms }],
        None => Seq::empty(),
    }
}

/// Whether a command carries the synthetic tag if it is a key event.
pub open spec fn cmd_tagged(c: SynthCommand) -> bool {
    c matches SynthCommand::Key { tag, .. } ==> tag == SYNTHETIC_TAG
}

/// Whether every key event of a plan carries the synthetic tag.
pub open spec fn plan_tagged(p: Seq<SynthCommand>) -> bool {
    forall|i: int| 0 <= i < p.len() ==> cmd_tagged(#[trigger] p[i])
}

/// The milliseconds a plan spends sleeping.
pub open spec fn plan_sleep_total(p: Seq<SynthCommand>) -> int
    decreases p.len(),
{
    if p.len() == 0 {
        0
    } else {
        (match p[0] {
            SynthCommand::SleepMs { ms } => ms as int,
            _ => 0,
        }) + plan_sleep_total(p.drop_first())
    }
}

/// Tagging survives plan concatenation.
pub proof fn lemma_plan_tagged_concat(a: Seq<SynthCommand>, b: Seq<SynthCommand>)
    requires
        plan_tagged(a),
        plan_tagged(b),
    ensures
        plan_tagged(a + b),
{
    assert forall|i: int| 0 <= i < (a + b).len() implies cmd_tagged(#[trigger] (a + b)[i]) by {
        if i < a.len() {
            assert((a + b)[i] == a[i]);
        } else {
            assert((a + b)[i] == b[i - a.len()]);
        }
    }
}

/// Sleeping time adds up over plan concatenation.
pub proof fn lemma_plan_sleep_total_concat(a: Seq<SynthCommand>, b: Seq<SynthCommand>)
    ensures
        plan_sleep_total(a + b) == plan_sleep_total(a) + plan_sleep_total(b),
    decreases a.len(),
{
    if a.len() == 0 {
        assert(a + b =~= b);
    } else {
        assert((a + b).drop_first() =~= a.drop_first() + b);
        lemma_plan_sleep_total_concat(a.drop_first(), b);
    }
}

} // verus!
