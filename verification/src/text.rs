//! Literal text edits: substring replacement, prepending and appending,
//! composed into ordered edit scripts.

use vstd::prelude::*;

verus! {

/// `pat` stands in `s` at offset `i`.
pub open spec fn occurs_at(s: Seq<char>, pat: Seq<char>, i: int) -> bool {
    0 <= i && i + pat.len() <= s.len() && s.subrange(i, i + pat.len()) == pat
}

/// `pat` stands somewhere in `s`.
pub open spec fn occurs(s: Seq<char>, pat: Seq<char>) -> bool {
    exists|i: int| occurs_at(s, pat, i)
}

/// `s` with every match of `from` replaced by `to`. Matches are taken from
/// the left and do not overlap; an empty `from` matches nowhere.
pub open spec fn replace_all(s: Seq<char>, from: Seq<char>, to: Seq<char>) -> Seq<char>
    decreases s.len(),
{
    if from.len() == 0 || s.len() < from.len() {
        s
    } else if s.subrange(0, from.len() as int) == from {
        to + replace_all(s.subrange(from.len() as int, s.len() as int), from, to)
    } else {
        seq![s[0]] + replace_all(s.subrange(1, s.len() as int), from, to)
    }
}

/// One step of an edit script.
#[derive(Debug)]
pub enum EditStep {
    /// Replace every match of `from` by `to`.
    Replace { from: String, to: String },
    /// Put the text in front of the content.
    Prepend(String),
    /// Put the text behind the content.
    Append(String),
}

/// The mathematical value of an [`EditStep`].
pub enum EditStepView {
    Replace { from: Seq<char>, to: Seq<char> },
    Prepend(Seq<char>),
    Append(Seq<char>),
}

impl View for EditStep {
    type V = EditStepView;

    open spec fn view(&self) -> EditStepView {
        match self {
            EditStep::Replace { from, to } => EditStepView::Replace { from: from@, to: to@ },
            EditStep::Prepend(text) => EditStepView::Prepend(text@),
            EditStep::Append(text) => EditStepView::Append(text@),
        }
    }
}

/// The views of the strings of a list, in order.
pub open spec fn strings_view(items: Seq<String>) -> Seq<Seq<char>> {
    Seq::new(items.len(), |i: int| items[i]@)
}

/// The views of a script's steps, in order.
pub open spec fn script_view(steps: Seq<EditStep>) -> Seq<EditStepView> {
    Seq::new(steps.len(), |i: int| steps[i]@)
}

/// What one step makes of `s`.
pub open spec fn run_step(s: Seq<char>, step: EditStepView) -> Seq<char> {
    match step {
        EditStepView::Replace { from, to } => replace_all(s, from, to),
        EditStepView::Prepend(text) => text + s,
        EditStepView::Append(text) => s + text,
    }
}

/// What a script makes of `s`: its steps applied from first to last.
pub open spec fn run_script(s: Seq<char>, steps: Seq<EditStepView>) -> Seq<char>
    decreases steps.len(),
{
    if steps.len() == 0 {
        s
    } else {
        run_step(run_script(s, steps.drop_last()), steps.last())
    }
}

/// Calls `String::push`, which appends the character to the end of the
/// string.
#[verifier::external_body]
fn push_char(text: &mut String, c: char)
    ensures
        final(text)@ == old(text)@.push(c),
{
    text.push(c)
}

/// The characters of a text.
fn to_chars(text: &str) -> (r: Vec<char>)
    ensures
        r@ == text@,
{
    let mut chars: Vec<char> = Vec::new();
    for c in iter: text.chars()
        invariant
            iter.seq() == text@,
            chars@ == iter.seq().take(iter.index() as int),
    {
        proof {
            assert(iter.seq().take(iter.index() + 1) =~= iter.seq().take(iter.index() as int).push(c));
        }
        chars.push(c);
    }
    proof {
        assert(text@.take(text@.len() as int) =~= text@);
    }
    chars
}

/// Appends the characters of `chars` from `from` up to `to` to `text`.
fn push_chars(text: &mut String, chars: &Vec<char>, from: usize, to: usize)
    requires
        from <= to <= chars@.len(),
    ensures
        final(text)@ == old(text)@ + chars@.subrange(from as int, to as int),
{
    let ghost before = text@;
    let mut i: usize = from;
    while i < to
        invariant
            from <= i <= to <= chars@.len(),
            text@ == before + chars@.subrange(from as int, i as int),
        decreases to - i,
    {
        proof {
            assert(chars@.subrange(from as int, i + 1) =~= chars@.subrange(
                from as int,
                i as int,
            ).push(chars@[i as int]));
        }
        push_char(text, chars[i]);
        i += 1;
    }
}

/// Whether `pat` stands in `text` at offset `at`.
fn matches_at(text: &Vec<char>, pat: &Vec<char>, at: usize) -> (r: bool)
    requires
        at + pat@.len() <= text@.len(),
    ensures
        r == (text@.subrange(at as int, at + pat@.len()) == pat@),
{
    let len = text.len();
    let mut j: usize = 0;
    while j < pat.len()
        invariant
            j <= pat@.len(),
            at + pat@.len() <= text@.len() == len,
            forall|k: int| 0 <= k < j ==> text@[at + k] == pat@[k],
        decreases pat.len() - j,
    {
        if text[at + j] != pat[j] {
            proof {
                assert(text@.subrange(at as int, at + pat@.len())[j as int] == text@[at + j]);
            }
            return false;
        }
        j += 1;
    }
    proof {
        assert(text@.subrange(at as int, at + pat@.len()) =~= pat@);
    }
    true
}

/// Replaces every match of `from` in `content` by `to`. Matches are taken
/// from the left and do not overlap; an empty `from` leaves the content as
/// it is.
pub fn replace_text(content: &str, from: &str, to: &str) -> (r: String)
    ensures
        r@ == replace_all(content@, from@, to@),
{
    let text = to_chars(content);
    let pat = to_chars(from);
    let n = text.len();
    let m = pat.len();
    if m == 0 || m > n {
        return content.to_owned();
    }
    let mut out = String::new();
    let mut i: usize = 0;
    proof {
        assert(text@.subrange(0, n as int) =~= text@);
    }
    while i <= n - m
        invariant
            0 < m <= n,
            n == text@.len(),
            m == pat@.len(),
            text@ == content@,
            pat@ == from@,
            i <= n,
            out@ + replace_all(text@.subrange(i as int, n as int), pat@, to@) == replace_all(
                text@,
                pat@,
                to@,
            ),
        decreases n - i,
    {
        let ghost rest = text@.subrange(i as int, n as int);
        if matches_at(&text, &pat, i) {
            proof {
                assert(rest.subrange(0, m as int) =~= text@.subrange(i as int, i + m));
                assert(rest.subrange(m as int, rest.len() as int) =~= text@.subrange(
                    i + m,
                    n as int,
                ));
                assert(out@ + (to@ + replace_all(text@.subrange(i + m, n as int), pat@, to@))
                    =~= (out@ + to@) + replace_all(text@.subrange(i + m, n as int), pat@, to@));
            }
            out.append(to);
            i += m;
        } else {
            proof {
                assert(rest.subrange(0, m as int) =~= text@.subrange(i as int, i + m));
                assert(rest.subrange(1, rest.len() as int) =~= text@.subrange(i + 1, n as int));
                assert(out@ + (seq![rest[0]] + replace_all(
                    text@.subrange(i + 1, n as int),
                    pat@,
                    to@,
                )) =~= out@.push(text@[i as int]) + replace_all(
                    text@.subrange(i + 1, n as int),
                    pat@,
                    to@,
                ));
            }
            push_char(&mut out, text[i]);
            i += 1;
        }
    }
    push_chars(&mut out, &text, i, n);
    out
}

/// Applies one step to `content`.
pub fn apply_step(content: String, step: &EditStep) -> (r: String)
    ensures
        r@ == run_step(content@, step@),
{
    match step {
        EditStep::Replace { from, to } => replace_text(content.as_str(), from.as_str(), to.as_str()),
        EditStep::Prepend(text) => text.clone().concat(content.as_str()),
        EditStep::Append(text) => content.concat(text.as_str()),
    }
}

/// Applies the steps of a script to `content`, from first to last.
pub fn apply_script(content: &str, steps: &Vec<EditStep>) -> (r: String)
    ensures
        r@ == run_script(content@, script_view(steps@)),
{
    let mut text: String = content.to_owned();
    let mut i: usize = 0;
    while i < steps.len()
        invariant
            i <= steps.len(),
            text@ == run_script(content@, script_view(steps@).take(i as int)),
        decreases steps.len() - i,
    {
        proof {
            let all = script_view(steps@);
            assert(all.take(i + 1).drop_last() == all.take(i as int));
            assert(all.take(i + 1).last() == steps@[i as int]@);
        }
        text = apply_step(text, &steps[i]);
        i += 1;
    }
    proof {
        assert(script_view(steps@).take(i as int) == script_view(steps@));
    }
    text
}

/// A text that holds `pat` still holds it with text put before and behind.
pub proof fn lemma_occurs_widen(before: Seq<char>, s: Seq<char>, behind: Seq<char>, pat: Seq<char>)
    requires
        occurs(s, pat),
    ensures
        occurs(before + s + behind, pat),
{
    let i = choose|i: int| occurs_at(s, pat, i);
    let whole = before + s + behind;
    assert(whole.subrange(before.len() + i, before.len() + i + pat.len()) =~= s.subrange(
        i,
        i + pat.len(),
    ));
    assert(occurs_at(whole, pat, before.len() + i));
}

/// A script with one more step runs the script, then the step.
pub proof fn lemma_run_script_push(s: Seq<char>, steps: Seq<EditStepView>, step: EditStepView)
    ensures
        run_script(s, steps.push(step)) == run_step(run_script(s, steps), step),
{
    assert(steps.push(step).drop_last() =~= steps);
}

/// Where `from` does not occur, replacing it changes nothing.
pub proof fn lemma_replace_absent(s: Seq<char>, from: Seq<char>, to: Seq<char>)
    requires
        !occurs(s, from),
    ensures
        replace_all(s, from, to) == s,
    decreases s.len(),
{
    if from.len() == 0 || s.len() < from.len() {
    } else {
        let n = from.len() as int;
        assert(!occurs_at(s, from, 0));
        let tail = s.subrange(1, s.len() as int);
        assert forall|i: int| !occurs_at(tail, from, i) by {
            if occurs_at(tail, from, i) {
                assert(tail.subrange(i, i + n) == s.subrange(i + 1, i + 1 + n));
                assert(occurs_at(s, from, i + 1));
            }
        }
        lemma_replace_absent(tail, from, to);
        assert(seq![s[0]] + tail == s);
    }
}

/// Replacing a text by itself changes nothing.
pub proof fn lemma_replace_same(s: Seq<char>, pat: Seq<char>)
    ensures
        replace_all(s, pat, pat) == s,
    decreases s.len(),
{
    if pat.len() == 0 || s.len() < pat.len() {
    } else if s.subrange(0, pat.len() as int) == pat {
        let rest = s.subrange(pat.len() as int, s.len() as int);
        lemma_replace_same(rest, pat);
        assert(pat + rest == s);
    } else {
        let tail = s.subrange(1, s.len() as int);
        lemma_replace_same(tail, pat);
        assert(seq![s[0]] + tail == s);
    }
}

/// A replacement does not shorten a text when `to` is at least as long as
/// `from`, and does not lengthen it when `to` is at most as long.
pub proof fn lemma_replace_length(s: Seq<char>, from: Seq<char>, to: Seq<char>)
    ensures
        to.len() >= from.len() ==> replace_all(s, from, to).len() >= s.len(),
        to.len() <= from.len() ==> replace_all(s, from, to).len() <= s.len(),
    decreases s.len(),
{
    if from.len() == 0 || s.len() < from.len() {
    } else if s.subrange(0, from.len() as int) == from {
        lemma_replace_length(s.subrange(from.len() as int, s.len() as int), from, to);
    } else {
        lemma_replace_length(s.subrange(1, s.len() as int), from, to);
    }
}

/// Where a text holds a match of `from`, replacing it by another text
/// changes the text.
pub proof fn lemma_replace_changes(s: Seq<char>, from: Seq<char>, to: Seq<char>)
    requires
        from.len() > 0,
        from != to,
        occurs(s, from),
    ensures
        replace_all(s, from, to) != s,
    decreases s.len(),
{
    let n = from.len() as int;
    let at = choose|i: int| occurs_at(s, from, i);
    if s.subrange(0, n) == from {
        let rest = s.subrange(n, s.len() as int);
        let replaced = replace_all(rest, from, to);
        lemma_replace_length(rest, from, to);
        if to.len() == from.len() {
            if to + replaced == s {
                assert((to + replaced).subrange(0, n) =~= to);
            }
        } else {
            assert(s.len() == n + rest.len());
            assert((to + replaced).len() == to.len() + replaced.len());
        }
    } else {
        let tail = s.subrange(1, s.len() as int);
        assert(at >= 1);
        assert(tail.subrange(at - 1, at - 1 + n) =~= s.subrange(at, at + n));
        assert(occurs_at(tail, from, at - 1));
        lemma_replace_changes(tail, from, to);
        if seq![s[0]] + replace_all(tail, from, to) == s {
            assert((seq![s[0]] + replace_all(tail, from, to)).subrange(1, s.len() as int)
                =~= replace_all(tail, from, to));
        }
    }
}

/// A replacement run twice gives what it gives when run once exactly where
/// the first run leaves no match of `from` behind, or `from` is empty or
/// replaced by itself. A first run can leave a match behind where the end
/// of `to` and the text that follows it spell `from` anew; on such content
/// the second run replaces again.
pub proof fn lemma_replace_idempotent(s: Seq<char>, from: Seq<char>, to: Seq<char>)
    ensures
        replace_all(replace_all(s, from, to), from, to) == replace_all(s, from, to) <==> (
        from.len() == 0 || from == to || !occurs(replace_all(s, from, to), from)),
{
    let once = replace_all(s, from, to);
    if from.len() == 0 {
    } else if from == to {
        lemma_replace_same(once, from);
    } else if occurs(once, from) {
        lemma_replace_changes(once, from, to);
    } else {
        lemma_replace_absent(once, from, to);
    }
}

/// Where `pat` stands once in a text, replacing it puts `to` in its place
/// and leaves what stands before and behind as it is. The one match is at
/// the end of `before`; no match begins earlier, and none lies in `behind`.
pub proof fn lemma_replace_single_match(
    before: Seq<char>,
    pat: Seq<char>,
    behind: Seq<char>,
    to: Seq<char>,
)
    requires
        pat.len() > 0,
        forall|i: int| 0 <= i < before.len() ==> !occurs_at(before + pat + behind, pat, i),
        !occurs(behind, pat),
    ensures
        replace_all(before + pat + behind, pat, to) == before + to + behind,
    decreases before.len(),
{
    let s = before + pat + behind;
    let n = pat.len() as int;
    if before.len() == 0 {
        assert(s.subrange(0, n) =~= pat);
        assert(s.subrange(n, s.len() as int) =~= behind);
        lemma_replace_absent(behind, pat, to);
        assert(to + behind =~= before + to + behind);
    } else {
        assert(!occurs_at(s, pat, 0));
        let rest = before.subrange(1, before.len() as int);
        let tail = rest + pat + behind;
        assert(s.subrange(1, s.len() as int) =~= tail);
        assert forall|i: int| 0 <= i < rest.len() implies !occurs_at(tail, pat, i) by {
            if occurs_at(tail, pat, i) {
                assert(tail.subrange(i, i + n) =~= s.subrange(i + 1, i + 1 + n));
                assert(occurs_at(s, pat, i + 1));
            }
        }
        lemma_replace_single_match(rest, pat, behind, to);
        assert(seq![s[0]] + (rest + to + behind) =~= before + to + behind);
    }
}

/// A step is a replacement that finds nothing to do in `s`.
pub open spec fn step_settled(s: Seq<char>, step: EditStepView) -> bool {
    match step {
        EditStepView::Replace { from, to } => from.len() == 0 || from == to || !occurs(s, from),
        _ => false,
    }
}

/// A script made of replacements only, run twice, gives what it gives when
/// run once, whenever none of its patterns is left in the result of the
/// first run.
pub proof fn lemma_replace_list_idempotent(s: Seq<char>, steps: Seq<EditStepView>)
    requires
        forall|i: int| 0 <= i < steps.len() ==> step_settled(run_script(s, steps), #[trigger] steps[i]),
    ensures
        run_script(run_script(s, steps), steps) == run_script(s, steps),
{
    lemma_settled_script(run_script(s, steps), steps);
}

/// A script whose every step is settled on `s` leaves `s` as it is.
pub proof fn lemma_settled_script(s: Seq<char>, steps: Seq<EditStepView>)
    requires
        forall|i: int| 0 <= i < steps.len() ==> step_settled(s, #[trigger] steps[i]),
    ensures
        run_script(s, steps) == s,
    decreases steps.len(),
{
    if steps.len() > 0 {
        let init = steps.drop_last();
        assert forall|i: int| 0 <= i < init.len() implies step_settled(s, #[trigger] init[i]) by {
            assert(init[i] == steps[i]);
        }
        lemma_settled_script(s, init);
        let last = steps.last();
        assert(step_settled(s, steps[steps.len() - 1]));
        match last {
            EditStepView::Replace { from, to } => {
                if from.len() == 0 {
                } else if from == to {
                    lemma_replace_same(s, from);
                } else {
                    lemma_replace_absent(s, from, to);
                }
            },
            _ => {},
        }
    }
}

/// Appending a non-empty block is not idempotent: each run adds the block
/// once more.
pub proof fn lemma_append_repeats(s: Seq<char>, block: Seq<char>)
    requires
        block.len() > 0,
    ensures
        run_step(run_step(s, EditStepView::Append(block)), EditStepView::Append(block)) == s + block
            + block,
        run_step(run_step(s, EditStepView::Append(block)), EditStepView::Append(block)) != run_step(
            s,
            EditStepView::Append(block),
        ),
{
    let once = s + block;
    let twice = once + block;
    assert(twice.len() == once.len() + block.len());
}

} // verus!
