//! The macro interpreters. A type-text action or a step sequence is compiled
//! into a synthetic key-event plan; the unverified performer then replays
//! the plan, so all sleeping happens on the executor thread and never inside
//! the hook callback.

use vstd::prelude::*;
use crate::MacroError;
use crate::config::{KeyAction, SequenceParams, Step, TypeTextParams};
use crate::keycodes::{char_to_vk, char_vk, key_code, parse_key_string, str_eq};
use crate::synth::{
    cmd_tagged, key_down, key_up, lemma_plan_sleep_total_concat, lemma_plan_tagged_concat,
    opt_sleep, plan_sleep_total, plan_tagged, KeyEventType, SynthCommand, SYNTHETIC_TAG,
};

verus! {

/// The inter-key delay in milliseconds a speed preset selects: `fastest` is
/// 5, `fast` is 10, `normal` is 20, `slow` is 50; anything else, and no
/// preset at all, is the default 10.
pub open spec fn speed_delay(speed: Option<String>) -> u64 {
    match speed {
        Some(s) => {
            if s@ == "fastest"@ {
                5
            } else if s@ == "fast"@ {
                10
            } else if s@ == "normal"@ {
                20
            } else if s@ == "slow"@ {
                50
            } else {
                10
            }
        },
        None => 10,
    }
}

fn char_delay_ms(speed: &Option<String>) -> (d: u64)
    ensures
        d == speed_delay(*speed),
{
    match speed {
        Some(s) => {
            if str_eq(s.as_str(), "fastest") {
                5
            } else if str_eq(s.as_str(), "fast") {
                10
            } else if str_eq(s.as_str(), "normal") {
                20
            } else if str_eq(s.as_str(), "slow") {
                50
            } else {
                10
            }
        },
        None => 10,
    }
}

/// What one character of a type-text action compiles to: press, sleep,
/// release, sleep for a mapped character, nothing for an unsupported one
/// (the character is skipped and the rest of the text continues).
pub open spec fn type_text_char_cmds(c: char, delay: u64) -> Seq<SynthCommand> {
    match char_vk(c) {
        Some(vk) => seq![
            key_down(vk),
            SynthCommand::SleepMs { ms: delay },
            key_up(vk),
            SynthCommand::SleepMs { ms: delay },
        ],
        None => Seq::empty(),
    }
}

/// What a whole type-text action compiles to, character by character.
pub open spec fn type_text_cmds(text: Seq<char>, delay: u64) -> Seq<SynthCommand>
    decreases text.len(),
{
    if text.len() == 0 {
        Seq::empty()
    } else {
        type_text_char_cmds(text[0], delay) + type_text_cmds(text.drop_first(), delay)
    }
}

proof fn lemma_type_text_cmds_snoc(text: Seq<char>, c: char, delay: u64)
    ensures
        type_text_cmds(text.push(c), delay) == type_text_cmds(text, delay)
            + type_text_char_cmds(c, delay),
    decreases text.len(),
{
    if text.len() == 0 {
        assert(text.push(c)[0] == c);
        assert(text.push(c).drop_first() =~= Seq::<char>::empty());
        assert(type_text_cmds(text.push(c).drop_first(), delay) =~= Seq::<SynthCommand>::empty());
        assert(type_text_cmds(text.push(c), delay) =~= type_text_cmds(text, delay)
            + type_text_char_cmds(c, delay));
    } else {
        assert(text.push(c)[0] == text[0]);
        assert(text.push(c).drop_first() =~= text.drop_first().push(c));
        lemma_type_text_cmds_snoc(text.drop_first(), c, delay);
        assert(type_text_cmds(text.push(c), delay) =~= type_text_cmds(text, delay)
            + type_text_char_cmds(c, delay));
    }
}

fn push_char_cmds(plan: &mut Vec<SynthCommand>, c: char, delay: u64)
    ensures
        final(plan)@ == old(plan)@ + type_text_char_cmds(c, delay),
{
    match char_to_vk(c) {
        Some(vk) => {
            plan.push(SynthCommand::Key {
                vk,
                event: KeyEventType::Press,
                tag: SYNTHETIC_TAG,
            });
            plan.push(SynthCommand::SleepMs { ms: delay });
            plan.push(SynthCommand::Key {
                vk,
                event: KeyEventType::Release,
                tag: SYNTHETIC_TAG,
            });
            plan.push(SynthCommand::SleepMs { ms: delay });
            proof {
                assert(plan@ =~= old(plan)@ + type_text_char_cmds(c, delay));
            }
        },
        None => {
            proof {
                assert(plan@ =~= old(plan)@ + type_text_char_cmds(c, delay));
            }
        },
    }
}

/// Compiles a type-text action into its synthetic key-event plan, using the
/// action's speed preset.
pub fn execute_type_text(params: &TypeTextParams) -> (plan: Vec<SynthCommand>)
    ensures
        plan@ == type_text_cmds(params.text@, speed_delay(params.speed)),
{
    let delay = char_delay_ms(&params.speed);
    let text = params.text.as_str();
    let n = text.unicode_len();
    let mut plan: Vec<SynthCommand> = Vec::new();
    let mut i: usize = 0;
    proof {
        assert(text@.take(0) =~= Seq::<char>::empty());
    }
    while i < n
        invariant
            i <= n,
            n == text@.len(),
            text@ == params.text@,
            delay == speed_delay(params.speed),
            plan@ == type_text_cmds(text@.take(i as int), delay),
        decreases n - i,
    {
        let c = text.get_char(i);
        proof {
            assert(text@.take(i as int + 1) =~= text@.take(i as int).push(text@[i as int]));
            lemma_type_text_cmds_snoc(text@.take(i as int), text@[i as int], delay);
        }
        push_char_cmds(&mut plan, c, delay);
        i = i + 1;
    }
    proof {
        assert(text@.take(n as int) =~= text@);
    }
    plan
}

/// What one character of a text step compiles to: press, an optional sleep,
/// release for a mapped character, nothing for an unsupported one. A text
/// step uses its own fixed delay, not a speed preset, and sleeps only
/// between press and release.
pub open spec fn seq_text_char_cmds(c: char, delay: Option<u64>) -> Seq<SynthCommand> {
    match char_vk(c) {
        Some(vk) => seq![key_down(vk)] + opt_sleep(delay) + seq![key_up(vk)],
        None => Seq::empty(),
    }
}

/// What a whole text step compiles to, character by character.
pub open spec fn seq_text_cmds(text: Seq<char>, delay: Option<u64>) -> Seq<SynthCommand>
    decreases text.len(),
{
    if text.len() == 0 {
        Seq::empty()
    } else {
        seq_text_char_cmds(text[0], delay) + seq_text_cmds(text.drop_first(), delay)
    }
}

proof fn lemma_seq_text_cmds_snoc(text: Seq<char>, c: char, delay: Option<u64>)
    ensures
        seq_text_cmds(text.push(c), delay) == seq_text_cmds(text, delay)
            + seq_text_char_cmds(c, delay),
    decreases text.len(),
{
    if text.len() == 0 {
        assert(text.push(c)[0] == c);
        assert(text.push(c).drop_first() =~= Seq::<char>::empty());
        assert(seq_text_cmds(text.push(c).drop_first(), delay) =~= Seq::<SynthCommand>::empty());
        assert(seq_text_cmds(text.push(c), delay) =~= seq_text_cmds(text, delay)
            + seq_text_char_cmds(c, delay));
    } else {
        assert(text.push(c)[0] == text[0]);
        assert(text.push(c).drop_first() =~= text.drop_first().push(c));
        lemma_seq_text_cmds_snoc(text.drop_first(), c, delay);
        assert(seq_text_cmds(text.push(c), delay) =~= seq_text_cmds(text, delay)
            + seq_text_char_cmds(c, delay));
    }
}

/// The way a key step drives its key when the step leaves it unsaid:
/// press, then release.
pub open spec fn actual_key_action(action: Option<KeyAction>) -> KeyAction {
    match action {
        Some(a) => a,
        None => KeyAction::Complete,
    }
}

/// What a key step compiles to: the press and/or release its action asks
/// for, with the optional sleep after the step.
pub open spec fn key_step_cmds(vk: u16, action: KeyAction, delay: Option<u64>) -> Seq<
    SynthCommand,
> {
    match action {
        KeyAction::Press => seq![key_down(vk)] + opt_sleep(delay),
        KeyAction::Release => seq![key_up(vk)] + opt_sleep(delay),
        KeyAction::Complete => seq![key_down(vk), key_up(vk)] + opt_sleep(delay),
    }
}

/// What one step of a sequence compiles to. A key step whose name resolves
/// to no key code compiles to nothing and is skipped.
pub open spec fn step_cmds(step: Step) -> Seq<SynthCommand> {
    match step {
        Step::Key { value, delay, action } => match key_code(value@) {
            Some(vk) => key_step_cmds(vk, actual_key_action(action), delay),
            None => Seq::empty(),
        },
        Step::Wait { value } => seq![SynthCommand::SleepMs { ms: value }],
        Step::Text { value, delay } => seq_text_cmds(value@, delay),
    }
}

/// What a whole sequence action compiles to, step by step in order.
pub open spec fn sequence_cmds(steps: Seq<Step>) -> Seq<SynthCommand>
    decreases steps.len(),
{
    if steps.len() == 0 {
        Seq::empty()
    } else {
        step_cmds(steps[0]) + sequence_cmds(steps.drop_first())
    }
}

proof fn lemma_sequence_cmds_snoc(steps: Seq<Step>, s: Step)
    ensures
        sequence_cmds(steps.push(s)) == sequence_cmds(steps) + step_cmds(s),
    decreases steps.len(),
{
    if steps.len() == 0 {
        assert(steps.push(s)[0] == s);
        assert(steps.push(s).drop_first() =~= Seq::<Step>::empty());
        assert(sequence_cmds(steps.push(s).drop_first()) =~= Seq::<SynthCommand>::empty());
        assert(sequence_cmds(steps.push(s)) =~= sequence_cmds(steps) + step_cmds(s));
    } else {
        assert(steps.push(s)[0] == steps[0]);
        assert(steps.push(s).drop_first() =~= steps.drop_first().push(s));
        lemma_sequence_cmds_snoc(steps.drop_first(), s);
        assert(sequence_cmds(steps.push(s)) =~= sequence_cmds(steps) + step_cmds(s));
    }
}

fn push_seq_text_char_cmds(plan: &mut Vec<SynthCommand>, c: char, delay: &Option<u64>)
    ensures
        final(plan)@ == old(plan)@ + seq_text_char_cmds(c, *delay),
{
    match char_to_vk(c) {
        Some(vk) => {
            plan.push(SynthCommand::Key {
                vk,
                event: KeyEventType::Press,
                tag: SYNTHETIC_TAG,
            });
            if let Some(d) = delay {
                plan.push(SynthCommand::SleepMs { ms: *d });
            }
            plan.push(SynthCommand::Key {
                vk,
                event: KeyEventType::Release,
                tag: SYNTHETIC_TAG,
            });
            proof {
                assert(plan@ =~= old(plan)@ + seq_text_char_cmds(c, *delay));
            }
        },
        None => {
            proof {
                assert(plan@ =~= old(plan)@ + seq_text_char_cmds(c, *delay));
            }
        },
    }
}

fn push_step_cmds(plan: &mut Vec<SynthCommand>, step: &Step)
    ensures
        final(plan)@ == old(plan)@ + step_cmds(*step),
{
    match step {
        Step::Key { value, delay, action } => {
            match parse_key_string(value.as_str()) {
                Some(vk) => {
                    let act = match action {
                        Some(a) => *a,
                        None => KeyAction::Complete,
                    };
                    match act {
                        KeyAction::Press => {
                            plan.push(SynthCommand::Key {
                                vk,
                                event: KeyEventType::Press,
                                tag: SYNTHETIC_TAG,
                            });
                            if let Some(d) = delay {
                                plan.push(SynthCommand::SleepMs { ms: *d });
                            }
                        },
                        KeyAction::Release => {
                            plan.push(SynthCommand::Key {
                                vk,
                                event: KeyEventType::Release,
                                tag: SYNTHETIC_TAG,
                            });
                            if let Some(d) = delay {
                                plan.push(SynthCommand::SleepMs { ms: *d });
                            }
                        },
                        KeyAction::Complete => {
                            plan.push(SynthCommand::Key {
                                vk,
                                event: KeyEventType::Press,
                                tag: SYNTHETIC_TAG,
                            });
                            plan.push(SynthCommand::Key {
                                vk,
                                event: KeyEventType::Release,
                                tag: SYNTHETIC_TAG,
                            });
                            if let Some(d) = delay {
                                plan.push(SynthCommand::SleepMs { ms: *d });
                            }
                        },
                    }
                    proof {
                        assert(plan@ =~= old(plan)@ + step_cmds(*step));
                    }
                },
                None => {
                    proof {
                        assert(plan@ =~= old(plan)@ + step_cmds(*step));
                    }
                },
            }
        },
        Step::Wait { value } => {
            plan.push(SynthCommand::SleepMs { ms: *value });
            proof {
                assert(plan@ =~= old(plan)@ + step_cmds(*step));
            }
        },
        Step::Text { value, delay } => {
            let text = value.as_str();
            let n = text.unicode_len();
            let mut i: usize = 0;
            proof {
                assert(text@.take(0) =~= Seq::<char>::empty());
                assert(plan@ + Seq::<SynthCommand>::empty() =~= plan@);
            }
            while i < n
                invariant
                    i <= n,
                    n == text@.len(),
                    plan@ == old(plan)@ + seq_text_cmds(text@.take(i as int), *delay),
                decreases n - i,
            {
                let c = text.get_char(i);
                proof {
                    assert(text@.take(i as int + 1) =~= text@.take(i as int).push(
                        text@[i as int],
                    ));
                    lemma_seq_text_cmds_snoc(text@.take(i as int), text@[i as int], *delay);
                }
                push_seq_text_char_cmds(plan, c, delay);
                proof {
                    assert(plan@ =~= old(plan)@ + seq_text_cmds(text@.take(i as int + 1), *delay));
                }
                i = i + 1;
            }
            proof {
                assert(text@.take(n as int) =~= text@);
            }
        },
    }
}

/// Compiles a sequence action into its synthetic key-event plan, step by
/// step in order.
pub fn execute_sequence(params: &SequenceParams) -> (plan: Vec<SynthCommand>)
    ensures
        plan@ == sequence_cmds(params.steps@),
{
    let n = params.steps.len();
    let mut plan: Vec<SynthCommand> = Vec::new();
    let mut i: usize = 0;
    proof {
        assert(params.steps@.take(0) =~= Seq::<Step>::empty());
    }
    while i < n
        invariant
            i <= n,
            n == params.steps@.len(),
            plan@ == sequence_cmds(params.steps@.take(i as int)),
        decreases n - i,
    {
        let step = &params.steps[i];
        proof {
            assert(params.steps@.take(i as int + 1) =~= params.steps@.take(i as int).push(
                params.steps@[i as int],
            ));
            lemma_sequence_cmds_snoc(params.steps@.take(i as int), params.steps@[i as int]);
        }
        push_step_cmds(&mut plan, step);
        i = i + 1;
    }
    proof {
        assert(params.steps@.take(n as int) =~= params.steps@);
    }
    plan
}

/// The number of characters of a text that map to a key and are typed;
/// unsupported characters are skipped and add nothing.
pub open spec fn typed_char_count(text: Seq<char>) -> int
    decreases text.len(),
{
    if text.len() == 0 {
        0
    } else {
        (if char_vk(text[0]) is Some {
            1int
        } else {
            0int
        }) + typed_char_count(text.drop_first())
    }
}

proof fn lemma_type_text_char_sleep(c: char, delay: u64)
    ensures
        plan_sleep_total(type_text_char_cmds(c, delay)) == (if char_vk(c) is Some {
            2 * (delay as int)
        } else {
            0int
        }),
{
    reveal_with_fuel(plan_sleep_total, 5);
    if char_vk(c) is Some {
        let p = type_text_char_cmds(c, delay);
        assert(p.drop_first().drop_first().drop_first().drop_first() =~= Seq::<
            SynthCommand,
        >::empty());
    }
}

/// A type-text plan sleeps the inter-key delay twice for every character it
/// types: once between press and release and once between characters. For a
/// text of `n` supported characters the whole plan sleeps `2·n` delays.
pub proof fn lemma_type_text_sleep_total(text: Seq<char>, delay: u64)
    ensures
        plan_sleep_total(type_text_cmds(text, delay)) == 2 * (delay as int) * typed_char_count(
            text,
        ),
    decreases text.len(),
{
    let d = delay as int;
    if text.len() == 0 {
        assert(2 * d * 0 == 0) by (nonlinear_arith);
    } else {
        lemma_plan_sleep_total_concat(
            type_text_char_cmds(text[0], delay),
            type_text_cmds(text.drop_first(), delay),
        );
        lemma_type_text_sleep_total(text.drop_first(), delay);
        lemma_type_text_char_sleep(text[0], delay);
        let k = typed_char_count(text.drop_first());
        assert(2 * d * (k + 1) == 2 * d * k + 2 * d) by (nonlinear_arith);
    }
}

proof fn lemma_seq4_tagged(a: SynthCommand, b: SynthCommand, c: SynthCommand, d: SynthCommand)
    requires
        cmd_tagged(a),
        cmd_tagged(b),
        cmd_tagged(c),
        cmd_tagged(d),
    ensures
        plan_tagged(seq![a, b, c, d]),
{
    let s = seq![a, b, c, d];
    assert forall|i: int| 0 <= i < s.len() implies cmd_tagged(#[trigger] s[i]) by {
        if i == 0 {
        } else if i == 1 {
        } else if i == 2 {
        } else {
        }
    }
}

/// Every key event of a type-text plan carries the synthetic tag.
pub proof fn lemma_type_text_plan_tagged(text: Seq<char>, delay: u64)
    ensures
        plan_tagged(type_text_cmds(text, delay)),
    decreases text.len(),
{
    if text.len() == 0 {
    } else {
        assert(plan_tagged(type_text_char_cmds(text[0], delay))) by {
            if char_vk(text[0]) is Some {
                let vk = char_vk(text[0])->Some_0;
                lemma_seq4_tagged(
                    key_down(vk),
                    SynthCommand::SleepMs { ms: delay },
                    key_up(vk),
                    SynthCommand::SleepMs { ms: delay },
                );
            }
        }
        lemma_type_text_plan_tagged(text.drop_first(), delay);
        lemma_plan_tagged_concat(
            type_text_char_cmds(text[0], delay),
            type_text_cmds(text.drop_first(), delay),
        );
    }
}

proof fn lemma_opt_sleep_tagged(delay: Option<u64>)
    ensures
        plan_tagged(opt_sleep(delay)),
{
}

proof fn lemma_singleton_tagged(c: SynthCommand)
    requires
        cmd_tagged(c),
    ensures
        plan_tagged(seq![c]),
{
}

proof fn lemma_seq_text_char_tagged(c: char, delay: Option<u64>)
    ensures
        plan_tagged(seq_text_char_cmds(c, delay)),
{
    if char_vk(c) is Some {
        let vk = char_vk(c)->Some_0;
        lemma_singleton_tagged(key_down(vk));
        lemma_singleton_tagged(key_up(vk));
        lemma_opt_sleep_tagged(delay);
        lemma_plan_tagged_concat(seq![key_down(vk)], opt_sleep(delay));
        lemma_plan_tagged_concat(seq![key_down(vk)] + opt_sleep(delay), seq![key_up(vk)]);
    }
}

proof fn lemma_seq_text_plan_tagged(text: Seq<char>, delay: Option<u64>)
    ensures
        plan_tagged(seq_text_cmds(text, delay)),
    decreases text.len(),
{
    if text.len() == 0 {
    } else {
        lemma_seq_text_char_tagged(text[0], delay);
        lemma_seq_text_plan_tagged(text.drop_first(), delay);
        lemma_plan_tagged_concat(
            seq_text_char_cmds(text[0], delay),
            seq_text_cmds(text.drop_first(), delay),
        );
    }
}

proof fn lemma_step_cmds_tagged(step: Step)
    ensures
        plan_tagged(step_cmds(step)),
{
    match step {
        Step::Key { value, delay, action } => {
            match key_code(value@) {
                Some(vk) => {
                    lemma_singleton_tagged(key_down(vk));
                    lemma_singleton_tagged(key_up(vk));
                    lemma_opt_sleep_tagged(delay);
                    match actual_key_action(action) {
                        KeyAction::Press => {
                            lemma_plan_tagged_concat(seq![key_down(vk)], opt_sleep(delay));
                        },
                        KeyAction::Release => {
                            lemma_plan_tagged_concat(seq![key_up(vk)], opt_sleep(delay));
                        },
                        KeyAction::Complete => {
                            assert(plan_tagged(seq![key_down(vk), key_up(vk)])) by {
                                let s = seq![key_down(vk), key_up(vk)];
                                assert forall|i: int| 0 <= i < s.len() implies cmd_tagged(
                                    #[trigger] s[i],
                                ) by {
                                    if i == 0 {
                                    } else {
                                    }
                                }
                            }
                            lemma_plan_tagged_concat(
                                seq![key_down(vk), key_up(vk)],
                                opt_sleep(delay),
                            );
                        },
                    }
                },
                None => {},
            }
        },
        Step::Wait { value } => {
            lemma_singleton_tagged(SynthCommand::SleepMs { ms: value });
        },
        Step::Text { value, delay } => {
            lemma_seq_text_plan_tagged(value@, delay);
        },
    }
}

/// Every key event of a sequence plan carries the synthetic tag.
pub proof fn lemma_sequence_plan_tagged(steps: Seq<Step>)
    ensures
        plan_tagged(sequence_cmds(steps)),
    decreases steps.len(),
{
    if steps.len() == 0 {
    } else {
        lemma_step_cmds_tagged(steps[0]);
        lemma_sequence_plan_tagged(steps.drop_first());
        lemma_plan_tagged_concat(step_cmds(steps[0]), sequence_cmds(steps.drop_first()));
    }
}

/// Typing a character that has no key-code mapping always fails: the engine
/// does not support injecting arbitrary Unicode text.
pub fn simulate_unicode_char(_ch: char) -> (r: Result<(), MacroError>)
    ensures
        r == Err::<(), MacroError>(MacroError::UnsupportedCharacter),
{
    Err(MacroError::UnsupportedCharacter)
}

} // verus!
