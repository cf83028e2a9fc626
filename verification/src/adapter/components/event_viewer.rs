//! The event viewer: the event log of the event-sourced store, newest first.

use vstd::prelude::*;
use vstd::utf8::encode_utf8;
use crate::text::{from_literal, push_text};

verus! {

/// One event as the viewer shows it.
#[derive(Clone, Debug)]
pub struct EventInfo {
    pub timestamp: String,
    pub user: String,
    pub location: String,
    pub action: String,
}

impl EventInfo {
    /// An event.
    pub fn new(timestamp: String, user: String, location: String, action: String) -> (r: Self)
        ensures
            r.timestamp@ == timestamp@,
            r.user@ == user@,
            r.location@ == location@,
            r.action@ == action@,
    {
        EventInfo { timestamp, user, location, action }
    }
}

/// Pieces of `s` of `w` characters each, the last one possibly shorter.
pub open spec fn chunks(s: Seq<char>, w: nat) -> Seq<Seq<char>>
    decreases s.len(),
{
    if s.len() == 0 || w == 0 {
        Seq::empty()
    } else if s.len() <= w {
        seq![s]
    } else {
        seq![s.take(w as int)] + chunks(s.skip(w as int), w)
    }
}

/// The lines of an action's text: the text itself when it takes no more
/// than `max_width` bytes, else pieces of `max_width` characters.
pub open spec fn action_lines(action: Seq<char>, byte_len: nat, max_width: nat) -> Seq<Seq<char>> {
    if byte_len > max_width {
        chunks(action, max_width)
    } else {
        seq![action]
    }
}

/// The length in bytes of a text's UTF-8 encoding, as `str::len` reports it.
pub open spec fn byte_len(s: Seq<char>) -> nat {
    (encode_utf8(s).len() as usize) as nat
}

/// The second line of an event: "👤 user @ location".
pub open spec fn who_where(user: Seq<char>, location: Seq<char>) -> Seq<char> {
    "👤 "@ + user + " @ "@ + location
}

/// The stateless event viewer.
pub struct EventViewer;

impl EventViewer {
    /// The viewer.
    pub fn new() -> (r: Self)
        ensures
            r == EventViewer,
    {
        EventViewer
    }

    /// Splits a text into pieces of `w` characters, the last one possibly
    /// shorter.
    pub fn split_into_chunks(s: &str, w: usize) -> (r: Vec<String>)
        requires
            w > 0,
        ensures
            r@.map_values(|x: String| x@) == chunks(s@, w as nat),
    {
        let n = s.unicode_len();
        let mut r: Vec<String> = Vec::new();
        let mut start: usize = 0;
        proof {
            assert(s@.skip(0) =~= s@);
            assert(r@.map_values(|x: String| x@) + chunks(s@, w as nat) =~= chunks(s@, w as nat));
        }
        while start < n
            invariant
                w > 0,
                n == s@.len(),
                start <= n,
                chunks(s@, w as nat) == r@.map_values(|x: String| x@) + chunks(s@.skip(start as int), w as nat),
            decreases n - start,
        {
            let ghost rest = s@.skip(start as int);
            let end = if n - start <= w { n } else { start + w };
            let piece = s.substring_char(start, end);
            let ghost before = r@;
            r.push(from_literal(piece));
            proof {
                assert(r@.map_values(|x: String| x@) =~= before.map_values(|x: String| x@).push(piece@));
                if n - start <= w {
                    assert(rest =~= piece@);
                    assert(s@.skip(end as int) =~= Seq::<char>::empty());
                    assert(chunks(rest, w as nat) == seq![rest]);
                } else {
                    assert(rest.take(w as int) =~= piece@);
                    assert(rest.skip(w as int) =~= s@.skip(end as int));
                }
                assert(before.map_values(|x: String| x@).push(piece@) + chunks(s@.skip(end as int), w as nat)
                    =~= before.map_values(|x: String| x@) + chunks(rest, w as nat));
            }
            start = end;
        }
        proof {
            assert(s@.skip(n as int) =~= Seq::<char>::empty());
            assert(r@.map_values(|x: String| x@) + Seq::<Seq<char>>::empty() =~= r@.map_values(|x: String| x@));
        }
        r
    }

    /// The lines an event takes in the viewer: its time, who and where,
    /// the action (wrapped at `max_width`), and an empty line.
    /// When the action is wider than `max_width` bytes, `max_width` must
    /// not be zero.
    pub fn event_lines(&self, event: &EventInfo, max_width: usize) -> (r: Vec<String>)
        requires
            byte_len(event.action@) > max_width ==> max_width > 0,
        ensures
            r@.map_values(|x: String| x@) == seq![event.timestamp@, who_where(event.user@, event.location@)]
                + action_lines(event.action@, byte_len(event.action@), max_width as nat)
                + seq![Seq::<char>::empty()],
    {
        let mut r: Vec<String> = Vec::new();
        r.push(event.timestamp.clone());
        let mut second = from_literal("👤 ");
        push_text(&mut second, event.user.as_str());
        push_text(&mut second, " @ ");
        push_text(&mut second, event.location.as_str());
        r.push(second);
        let ghost head = r@;
        let lines: Vec<String> = if event.action.as_str().len() > max_width {
            Self::split_into_chunks(event.action.as_str(), max_width)
        } else {
            let mut one: Vec<String> = Vec::new();
            one.push(event.action.clone());
            proof {
                assert(one@.map_values(|x: String| x@) =~= seq![event.action@]);
            }
            one
        };
        let ghost lines_v = lines@;
        assert(lines_v.map_values(|x: String| x@) == action_lines(event.action@, byte_len(event.action@), max_width as nat));
        let mut rest = lines;
        r.append(&mut rest);
        let ghost body = r@;
        proof {
            assert(body =~= head + lines_v);
            assert(body.map_values(|x: String| x@) =~= head.map_values(|x: String| x@) + lines_v.map_values(|x: String| x@));
        }
        r.push(String::new());
        proof {
            assert(head.map_values(|x: String| x@) =~= seq![event.timestamp@, who_where(event.user@, event.location@)]);
            assert(r@.map_values(|x: String| x@) =~= body.map_values(|x: String| x@).push(Seq::<char>::empty()));
        }
        r
    }
}

impl Default for EventViewer {
    fn default() -> (r: Self)
        ensures
            r == EventViewer,
    {
        EventViewer::new()
    }
}

/// The texts, one after the other.
pub open spec fn concat_all(ss: Seq<Seq<char>>) -> Seq<char>
    decreases ss.len(),
{
    if ss.len() == 0 {
        Seq::empty()
    } else {
        ss[0] + concat_all(ss.skip(1))
    }
}

/// Wrapping loses nothing and adds nothing: the pieces of a text, put back
/// together, are the text; and no piece is wider than the width.
pub proof fn law_chunks_concatenate(s: Seq<char>, w: nat)
    requires
        w > 0,
    ensures
        concat_all(chunks(s, w)) == s,
        forall|i: int| 0 <= i < chunks(s, w).len() ==> #[trigger] chunks(s, w)[i].len() <= w,
    decreases s.len(),
{
    if s.len() == 0 {
        assert(s =~= Seq::<char>::empty());
    } else if s.len() <= w {
        assert(seq![s].skip(1) =~= Seq::<Seq<char>>::empty());
        assert(concat_all(Seq::<Seq<char>>::empty()) == Seq::<char>::empty());
        assert(concat_all(seq![s]) == seq![s][0] + concat_all(seq![s].skip(1)));
        assert(s + Seq::<char>::empty() =~= s);
    } else {
        let rest = chunks(s.skip(w as int), w);
        law_chunks_concatenate(s.skip(w as int), w);
        assert((seq![s.take(w as int)] + rest).skip(1) =~= rest);
        assert((seq![s.take(w as int)] + rest)[0] == s.take(w as int));
        assert(s.take(w as int) + s.skip(w as int) =~= s);
        assert forall|i: int| 0 <= i < chunks(s, w).len() implies #[trigger] chunks(s, w)[i].len() <= w by {
            if i > 0 {
                assert(chunks(s, w)[i] == rest[i - 1]);
            }
        }
    }
}

} // verus!
