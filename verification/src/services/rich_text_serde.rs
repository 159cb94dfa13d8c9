use vstd::prelude::*;

use bytes::Bytes;

use crate::models::prelude::{bytes_from_string, bytes_view};
use crate::util::push_char;

verus! {

/// A tag toggled on at a position of a text buffer: its name, when it has
/// one, and whether the buffer's tag table holds a tag of that name.
pub struct OpenedTag {
    pub name: Option<String>,
    pub in_table: bool,
}

/// What the serializer reads at one position of a text buffer: the tags
/// toggled on there, how many tags are toggled off there, and the character
/// found there.
pub struct BufferPosition {
    pub opened: Vec<OpenedTag>,
    pub closed: usize,
    pub ch: char,
}

/// The serializer's progress: the text written so far and the names of the
/// tags left open, innermost last.
pub struct SerializerState {
    pub text: Seq<char>,
    pub stack: Seq<Seq<char>>,
}

/// The markup that opens the tag `name`: `<name>`.
pub open spec fn open_tag_text(name: Seq<char>) -> Seq<char> {
    "<"@ + name + ">"@
}

/// The markup that closes the tag `name`: `</name>`.
pub open spec fn close_tag_text(name: Seq<char>) -> Seq<char> {
    "</"@ + name + ">"@
}

/// The state after the tags of `opened` are toggled on, in order: each named
/// tag that the table holds is written as an opening markup and left open;
/// the others are passed over.
pub open spec fn apply_opened(st: SerializerState, opened: Seq<OpenedTag>) -> SerializerState
    decreases opened.len(),
{
    if opened.len() == 0 {
        st
    } else {
        let s = apply_opened(st, opened.drop_last());
        let t = opened.last();
        if t.in_table && t.name is Some {
            let n = t.name.unwrap()@;
            SerializerState { text: s.text + open_tag_text(n), stack: s.stack.push(n) }
        } else {
            s
        }
    }
}

/// The state after `n` tags are toggled off: each closes the innermost tag
/// left open, writing its closing markup; with none left open, nothing is
/// written.
pub open spec fn apply_closed(st: SerializerState, n: nat) -> SerializerState
    decreases n,
{
    if n == 0 {
        st
    } else {
        let s = apply_closed(st, (n - 1) as nat);
        if s.stack.len() > 0 {
            SerializerState { text: s.text + close_tag_text(s.stack.last()), stack: s.stack.drop_last() }
        } else {
            s
        }
    }
}

/// The state after one position: its tags are opened, then its closing tags
/// are written, then its character.
pub open spec fn apply_position(st: SerializerState, p: BufferPosition) -> SerializerState {
    let s = apply_closed(apply_opened(st, p.opened@), p.closed as nat);
    SerializerState { text: s.text.push(p.ch), stack: s.stack }
}

/// The state after the positions of `ps`, in order.
pub open spec fn apply_positions(st: SerializerState, ps: Seq<BufferPosition>) -> SerializerState
    decreases ps.len(),
{
    if ps.len() == 0 {
        st
    } else {
        apply_position(apply_positions(st, ps.drop_last()), ps.last())
    }
}

/// The text a buffer serializes to: its positions in order, then the tags
/// toggled off at its end.
pub open spec fn serialized_text(ps: Seq<BufferPosition>, closed_at_end: nat) -> Seq<char> {
    apply_closed(
        apply_positions(SerializerState { text: Seq::empty(), stack: Seq::empty() }, ps),
        closed_at_end,
    ).text
}

/// The closing markups of the `m` innermost tags of `stack`, innermost first.
pub open spec fn closing_markup(stack: Seq<Seq<char>>, m: nat) -> Seq<char> {
    Seq::new(m, |j: int| close_tag_text(stack[stack.len() - 1 - j])).flatten_alt()
}

/// Toggling off `n` tags while `k` are open closes the `min(n, k)` innermost
/// ones, innermost first, and leaves the others open.
proof fn lemma_closed_run(st: SerializerState, n: nat)
    ensures
        ({
            let k = st.stack.len();
            let m = if n <= k { n } else { k };
            &&& apply_closed(st, n).stack == st.stack.take(k - m)
            &&& apply_closed(st, n).text == st.text + closing_markup(st.stack, m)
        }),
    decreases n,
{
    let k = st.stack.len();
    let f = |j: int| close_tag_text(st.stack[k - 1 - j]);
    if n == 0 {
        assert(st.stack.take(k as int) =~= st.stack);
        assert(Seq::new(0, f).flatten_alt() =~= Seq::<char>::empty());
        assert(st.text + Seq::<char>::empty() =~= st.text);
    } else {
        lemma_closed_run(st, (n - 1) as nat);
        let m1: nat = if n - 1 <= k { (n - 1) as nat } else { k };
        let s1 = apply_closed(st, (n - 1) as nat);
        if m1 < k {
            assert(s1.stack.len() == k - m1);
            assert(s1.stack.last() == st.stack[k - 1 - m1]);
            assert(s1.stack.drop_last() =~= st.stack.take(k - m1 - 1));
            assert(Seq::new(m1 + 1, f).drop_last() =~= Seq::new(m1, f));
            assert(Seq::new(m1 + 1, f).flatten_alt() == Seq::new(m1, f).flatten_alt() + f(m1 as int));
            assert(st.text + closing_markup(st.stack, m1) + close_tag_text(st.stack[k - 1 - m1])
                =~= st.text + closing_markup(st.stack, m1 + 1));
        } else {
            assert(s1.stack.len() == 0);
        }
    }
}

/// Tags toggled on that all have a name the table holds are each written as
/// `<name>`, in order, and left open in that order, innermost last; tags
/// toggled on that are unnamed or unknown to the table write nothing and
/// open nothing.
pub proof fn lemma_opened_tags(st: SerializerState, opened: Seq<OpenedTag>)
    ensures
        (forall|i: int| 0 <= i < opened.len() ==> (#[trigger] opened[i]).in_table && opened[i].name is Some)
            ==> {
            &&& apply_opened(st, opened).stack == st.stack + Seq::new(
                opened.len(),
                |j: int| opened[j].name.unwrap()@,
            )
            &&& apply_opened(st, opened).text == st.text + Seq::new(
                opened.len(),
                |j: int| open_tag_text(opened[j].name.unwrap()@),
            ).flatten_alt()
        },
        (forall|i: int| 0 <= i < opened.len() ==> !((#[trigger] opened[i]).in_table && opened[i].name is Some))
            ==> apply_opened(st, opened) == st,
    decreases opened.len(),
{
    if opened.len() == 0 {
        assert(st.stack + Seq::new(0, |j: int| opened[j].name.unwrap()@) =~= st.stack);
        assert(Seq::new(0, |j: int| open_tag_text(opened[j].name.unwrap()@)).flatten_alt()
            =~= Seq::<char>::empty());
        assert(st.text + Seq::<char>::empty() =~= st.text);
    } else {
        let rest = opened.drop_last();
        let n = opened.len() - 1;
        lemma_opened_tags(st, rest);
        if forall|i: int| 0 <= i < opened.len() ==> (#[trigger] opened[i]).in_table && opened[i].name is Some {
            assert forall|i: int| 0 <= i < rest.len() implies (#[trigger] rest[i]).in_table
                && rest[i].name is Some by {
                assert(rest[i] == opened[i]);
            }
            assert(opened[n].in_table && opened[n].name is Some);
            let fs = |j: int| opened[j].name.unwrap()@;
            let fr = |j: int| rest[j].name.unwrap()@;
            assert(Seq::new(rest.len(), fr) =~= Seq::new(n as nat, fs));
            assert(st.stack + Seq::new(opened.len(), fs) =~= (st.stack + Seq::new(n as nat, fs)).push(
                opened[n].name.unwrap()@,
            ));
            let gs = |j: int| open_tag_text(opened[j].name.unwrap()@);
            let gr = |j: int| open_tag_text(rest[j].name.unwrap()@);
            assert(Seq::new(rest.len(), gr) =~= Seq::new(n as nat, gs));
            assert(Seq::new(opened.len(), gs).drop_last() =~= Seq::new(n as nat, gs));
            assert(Seq::new(opened.len(), gs).flatten_alt() == Seq::new(n as nat, gs).flatten_alt() + gs(n));
            assert(st.text + Seq::new(n as nat, gs).flatten_alt() + gs(n) =~= st.text + Seq::new(
                opened.len(),
                gs,
            ).flatten_alt());
        }
        if forall|i: int| 0 <= i < opened.len() ==> !((#[trigger] opened[i]).in_table && opened[i].name is Some) {
            assert forall|i: int| 0 <= i < rest.len() implies !((#[trigger] rest[i]).in_table
                && rest[i].name is Some) by {
                assert(rest[i] == opened[i]);
            }
            assert(!(opened[n].in_table && opened[n].name is Some));
        }
    }
}

/// At a position that toggles off `n` tags while `k` tags are open (those
/// left open before it and those it opens), the `min(n, k)` innermost open
/// tags are closed, innermost first, before its character is written, and
/// the others stay open.
pub proof fn lemma_position_closes_toggled_tags(st: SerializerState, p: BufferPosition)
    ensures
        ({
            let o = apply_opened(st, p.opened@);
            let k = o.stack.len();
            let m: nat = if p.closed <= k { p.closed as nat } else { k };
            &&& apply_position(st, p).stack == o.stack.take(k - m)
            &&& apply_position(st, p).text == o.text + closing_markup(o.stack, m) + seq![p.ch]
        }),
{
    let o = apply_opened(st, p.opened@);
    lemma_closed_run(o, p.closed as nat);
    assert(apply_position(st, p).text =~= apply_closed(o, p.closed as nat).text.push(p.ch));
}

/// With no tag left open, toggling tags off writes nothing.
proof fn lemma_closed_without_open_tags(st: SerializerState, n: nat)
    requires
        st.stack.len() == 0,
    ensures
        apply_closed(st, n) == st,
    decreases n,
{
    if n > 0 {
        lemma_closed_without_open_tags(st, (n - 1) as nat);
    }
}

/// A buffer whose positions toggle no tag on serializes to its characters
/// alone, whatever tags it toggles off.
pub proof fn lemma_untagged_buffer(ps: Seq<BufferPosition>, closed_at_end: nat)
    requires
        forall|i: int| 0 <= i < ps.len() ==> (#[trigger] ps[i]).opened@.len() == 0,
    ensures
        serialized_text(ps, closed_at_end) == ps.map_values(|p: BufferPosition| p.ch),
    decreases ps.len(),
{
    let st0 = SerializerState { text: Seq::empty(), stack: Seq::empty() };
    if ps.len() == 0 {
        assert(ps.map_values(|p: BufferPosition| p.ch) =~= Seq::<char>::empty());
        lemma_closed_without_open_tags(st0, closed_at_end);
    } else {
        let rest = ps.drop_last();
        assert forall|i: int| 0 <= i < rest.len() implies (#[trigger] rest[i]).opened@.len() == 0 by {
            assert(rest[i] == ps[i]);
        }
        lemma_untagged_buffer(rest, 0);
        lemma_untagged_stack(rest);
        let s = apply_positions(st0, rest);
        assert(s.text == rest.map_values(|p: BufferPosition| p.ch));
        let p = ps.last();
        assert(p.opened@ =~= Seq::<OpenedTag>::empty()) by {
            assert(ps[ps.len() - 1].opened@.len() == 0);
        }
        assert(apply_opened(s, p.opened@) == s);
        lemma_closed_without_open_tags(s, p.closed as nat);
        lemma_untagged_stack(ps);
        lemma_closed_without_open_tags(apply_positions(st0, ps), closed_at_end);
        assert(ps.map_values(|p: BufferPosition| p.ch) =~= rest.map_values(
            |p: BufferPosition| p.ch,
        ).push(p.ch));
    }
}

/// Positions that toggle no tag on leave no tag open.
proof fn lemma_untagged_stack(ps: Seq<BufferPosition>)
    requires
        forall|i: int| 0 <= i < ps.len() ==> (#[trigger] ps[i]).opened@.len() == 0,
    ensures
        apply_positions(SerializerState { text: Seq::empty(), stack: Seq::empty() }, ps).stack.len()
            == 0,
    decreases ps.len(),
{
    if ps.len() > 0 {
        let rest = ps.drop_last();
        assert forall|i: int| 0 <= i < rest.len() implies (#[trigger] rest[i]).opened@.len() == 0 by {
            assert(rest[i] == ps[i]);
        }
        lemma_untagged_stack(rest);
        let s = apply_positions(SerializerState { text: Seq::empty(), stack: Seq::empty() }, rest);
        let p = ps.last();
        assert(p.opened@ =~= Seq::<OpenedTag>::empty()) by {
            assert(ps[ps.len() - 1].opened@.len() == 0);
        }
        assert(apply_opened(s, p.opened@) == s);
        lemma_closed_without_open_tags(s, p.closed as nat);
    }
}

/// The names held by a stack of tag names.
pub open spec fn names_view(stack: Seq<String>) -> Seq<Seq<char>> {
    stack.map_values(|s: String| s@)
}

/// Writes the opening markup of each tag of `opened` that is named and held
/// by the table, and leaves it open.
fn open_tags(opened: &Vec<OpenedTag>, text: &mut String, stack: &mut Vec<String>)
    ensures
        apply_opened(SerializerState { text: old(text)@, stack: names_view(old(stack)@) }, opened@)
            == (SerializerState { text: final(text)@, stack: names_view(final(stack)@) }),
{
    let ghost st0 = SerializerState { text: text@, stack: names_view(stack@) };
    let mut i: usize = 0;
    while i < opened.len()
        invariant
            0 <= i <= opened@.len(),
            apply_opened(st0, opened@.take(i as int)) == (SerializerState {
                text: text@,
                stack: names_view(stack@),
            }),
        decreases opened@.len() - i,
    {
        assert(opened@.take(i as int + 1).drop_last() =~= opened@.take(i as int));
        let t = &opened[i];
        if t.in_table {
            match &t.name {
                Some(name) => {
                    let ghost before = text@;
                    let ghost before_stack = names_view(stack@);
                    text.append("<");
                    text.append(name.as_str());
                    text.append(">");
                    assert(text@ =~= before + open_tag_text(name@));
                    stack.push(name.clone());
                    assert(names_view(stack@) =~= before_stack.push(name@));
                },
                None => {},
            }
        }
        i = i + 1;
    }
    assert(opened@.take(opened@.len() as int) =~= opened@);
}

/// Writes the closing markup of the innermost open tag, once for each of the
/// `closed` tags toggled off, while tags are left open.
fn check_closing_tags(closed: usize, text: &mut String, stack: &mut Vec<String>)
    ensures
        apply_closed(SerializerState { text: old(text)@, stack: names_view(old(stack)@) }, closed as nat)
            == (SerializerState { text: final(text)@, stack: names_view(final(stack)@) }),
{
    let ghost st0 = SerializerState { text: text@, stack: names_view(stack@) };
    let mut k: usize = 0;
    while k < closed
        invariant
            0 <= k <= closed,
            apply_closed(st0, k as nat) == (SerializerState { text: text@, stack: names_view(stack@) }),
        decreases closed - k,
    {
        let ghost before_stack = stack@;
        match stack.pop() {
            Some(name) => {
                assert(names_view(stack@) =~= names_view(before_stack).drop_last());
                let ghost before = text@;
                text.append("</");
                text.append(name.as_str());
                text.append(">");
                assert(text@ =~= before + close_tag_text(name@));
            },
            None => {},
        }
        k = k + 1;
    }
}

/// Turns the text of a buffer and its tags into bytes.
pub struct RichTextSerde;

impl RichTextSerde {
    /// Serializes the text of a buffer with its tags as markup: at each position
    /// the tags toggled on there are opened (`<name>`), the tags toggled off
    /// there close the innermost open ones (`</name>`), and the character is
    /// written; the tags toggled off at the end close last. The bytes are the
    /// UTF-8 encoding of that text.
    pub fn serialize_buffer_with_tags(positions: &Vec<BufferPosition>, closed_at_end: usize) -> (r: Bytes)
        ensures
            bytes_view(r) == vstd::utf8::encode_utf8(serialized_text(positions@, closed_at_end as nat)),
    {
        let mut text = String::new();
        let mut stack: Vec<String> = Vec::new();
        let ghost st0 = SerializerState { text: Seq::empty(), stack: Seq::empty() };
        assert(names_view(stack@) =~= Seq::<Seq<char>>::empty());
        let mut i: usize = 0;
        while i < positions.len()
            invariant
                0 <= i <= positions@.len(),
                st0 == (SerializerState { text: Seq::empty(), stack: Seq::empty() }),
                apply_positions(st0, positions@.take(i as int)) == (SerializerState {
                    text: text@,
                    stack: names_view(stack@),
                }),
            decreases positions@.len() - i,
        {
            assert(positions@.take(i as int + 1).drop_last() =~= positions@.take(i as int));
            let p = &positions[i];
            open_tags(&p.opened, &mut text, &mut stack);
            check_closing_tags(p.closed, &mut text, &mut stack);
            push_char(&mut text, p.ch);
            i = i + 1;
        }
        assert(positions@.take(positions@.len() as int) =~= positions@);
        check_closing_tags(closed_at_end, &mut text, &mut stack);
        bytes_from_string(text)
    }
}

} // verus!
