//! Commands that a controller sends to the collecting process, and the
//! framing of the text stream that carries them, one message per line.

use vstd::prelude::*;
use vstd::utf8::*;
use vstd::string::*;

verus! {

/// The line feed byte, which ends a line.
pub const LINE_FEED: u8 = 0x0a;

/// The carriage return byte, which is dropped where it precedes a line feed.
pub const CARRIAGE_RETURN: u8 = 0x0d;

/// A command from the controller.
#[derive(Debug, Clone, PartialEq, Eq)]
pub enum Client {
    /// Start a run that writes to the named destination.
    StartPressed(String),
    /// Stop the run.
    StopPressed,
}

/// What a command asks of the collecting process.
#[derive(Debug, Clone, PartialEq, Eq)]
pub enum Dispatch {
    /// Start a run that writes to the named destination.
    Start(String),
    /// Stop the run, if there is one.
    Stop,
    /// Nothing: a run exists already.
    Nothing,
}

/// What the given command asks for: a start only while no run exists, a
/// stop always.
pub open spec fn dispatch_of(ev: Client, run_active: bool) -> Dispatch {
    match ev {
        Client::StartPressed(file) => if run_active {
            Dispatch::Nothing
        } else {
            Dispatch::Start(file)
        },
        Client::StopPressed => Dispatch::Stop,
    }
}

/// Decides `dispatch_of`.
pub fn dispatch_event(ev: Client, run_active: bool) -> (dispatch: Dispatch)
    ensures
        dispatch == dispatch_of(ev, run_active),
{
    match ev {
        Client::StartPressed(file) => if run_active {
            Dispatch::Nothing
        } else {
            Dispatch::Start(file)
        },
        Client::StopPressed => Dispatch::Stop,
    }
}

/// Index of the first line feed in `bytes`, or their length if there is
/// none.
pub open spec fn first_line_feed(bytes: Seq<u8>) -> int
    decreases bytes.len(),
{
    if bytes.len() == 0 || bytes[0] == LINE_FEED {
        0
    } else {
        1 + first_line_feed(bytes.skip(1))
    }
}

/// The line without the carriage return that ends it, if one does.
pub open spec fn strip_carriage_return(line: Seq<u8>) -> Seq<u8> {
    if line.len() > 0 && line.last() == CARRIAGE_RETURN {
        line.drop_last()
    } else {
        line
    }
}

/// The lines of a text. A line ends with a line feed, or with a carriage
/// return and a line feed; neither belongs to the line. What follows the
/// last line feed is a line as it stands, unless it is empty.
pub open spec fn split_lines(bytes: Seq<u8>) -> Seq<Seq<u8>>
    decreases bytes.len(),
{
    if bytes.len() == 0 {
        Seq::empty()
    } else {
        let end = first_line_feed(bytes);
        if 0 <= end < bytes.len() {
            seq![strip_carriage_return(bytes.take(end))] + split_lines(bytes.skip(end + 1))
        } else {
            seq![bytes]
        }
    }
}

/// The bytes of each of the given strings.
pub open spec fn frames(lines: Seq<&str>) -> Seq<Seq<u8>> {
    Seq::new(lines.len(), |i: int| lines[i].spec_bytes())
}

/// `first_line_feed` is the least index that holds a line feed.
pub proof fn lemma_first_line_feed(bytes: Seq<u8>)
    ensures
        0 <= first_line_feed(bytes) <= bytes.len(),
        first_line_feed(bytes) < bytes.len() ==> bytes[first_line_feed(bytes)] == LINE_FEED,
        forall|j: int| 0 <= j < first_line_feed(bytes) ==> bytes[j] != LINE_FEED,
    decreases bytes.len(),
{
    if bytes.len() == 0 || bytes[0] == LINE_FEED {
    } else {
        let tail = bytes.skip(1);
        lemma_first_line_feed(tail);
        assert forall|j: int| 0 <= j < first_line_feed(bytes) implies bytes[j] != LINE_FEED by {
            if j > 0 {
                assert(bytes[j] == tail[j - 1]);
            }
        }
        if first_line_feed(bytes) < bytes.len() {
            assert(bytes[first_line_feed(bytes)] == tail[first_line_feed(tail)]);
        }
    }
}

/// An index at which a line feed stands, with none before it, is
/// `first_line_feed`; so is the length where no line feed stands at all.
pub proof fn lemma_first_line_feed_unique(bytes: Seq<u8>, end: int)
    requires
        0 <= end <= bytes.len(),
        end < bytes.len() ==> bytes[end] == LINE_FEED,
        forall|j: int| 0 <= j < end ==> bytes[j] != LINE_FEED,
    ensures
        first_line_feed(bytes) == end,
{
    lemma_first_line_feed(bytes);
}

/// Finds `first_line_feed`.
pub(crate) fn find_line_feed(bytes: &[u8]) -> (end: usize)
    ensures
        end == first_line_feed(bytes@),
{
    let n: usize = bytes.len();
    let mut i: usize = 0;
    while i < n && bytes[i] != LINE_FEED
        invariant
            n == bytes@.len(),
            i <= n,
            forall|j: int| 0 <= j < i ==> bytes@[j] != LINE_FEED,
        decreases n - i,
    {
        i += 1;
    }
    proof {
        lemma_first_line_feed_unique(bytes@, i as int);
    }
    i
}

/// In well-formed text the place after a leading line feed is a character
/// boundary.
proof fn lemma_boundary_after_line_feed(bytes: Seq<u8>)
    requires
        valid_utf8(bytes),
        bytes.len() > 0,
        bytes[0] == LINE_FEED,
    ensures
        is_char_boundary(bytes, 1),
{
    reveal_with_fuel(is_char_boundary, 2);
    is_char_boundary_start_end_of_seq(pop_first_scalar(bytes));
}

/// Drops the carriage return that ends the line, if one does.
fn trim_carriage_return<'a>(line: &'a str) -> (out: &'a str)
    ensures
        out.spec_bytes() == strip_carriage_return(line.spec_bytes()),
{
    let bytes: &[u8] = line.as_bytes();
    let n: usize = bytes.len();
    if n > 0 && bytes[n - 1] == CARRIAGE_RETURN {
        proof {
            encode_utf8_valid_utf8(line@);
            is_char_boundary_iff_not_is_continuation_byte(line.spec_bytes(), n - 1);
        }
        let (head, _) = line.split_at(n - 1);
        assert(head.spec_bytes() =~= line.spec_bytes().drop_last());
        head
    } else {
        line
    }
}

/// Splits a text into its lines, in order; each borrows from the text.
pub fn process<'a>(json: &'a str) -> (lines: Vec<&'a str>)
    ensures
        frames(lines@) == split_lines(json.spec_bytes()),
{
    let mut lines: Vec<&'a str> = Vec::new();
    let mut rest: &'a str = json;
    let mut n: usize = rest.as_bytes().len();
    assert(frames(lines@) + split_lines(rest.spec_bytes()) =~= split_lines(json.spec_bytes()));
    while n > 0
        invariant
            n == rest.spec_bytes().len(),
            frames(lines@) + split_lines(rest.spec_bytes()) == split_lines(json.spec_bytes()),
        decreases n,
    {
        let ghost before = frames(lines@);
        let ghost whole = rest.spec_bytes();
        let bytes: &[u8] = rest.as_bytes();
        let end: usize = find_line_feed(bytes);
        proof {
            encode_utf8_valid_utf8(rest@);
            lemma_first_line_feed(whole);
            if end < n {
                is_char_boundary_iff_not_is_continuation_byte(whole, end as int);
            } else {
                is_char_boundary_start_end_of_seq(whole);
            }
        }
        let (line, tail) = rest.split_at(end);
        if end < n {
            proof {
                encode_utf8_valid_utf8(tail@);
                lemma_boundary_after_line_feed(tail.spec_bytes());
            }
            let (_, after) = tail.split_at(1);
            let trimmed: &'a str = trim_carriage_return(line);
            lines.push(trimmed);
            rest = after;
            n = rest.as_bytes().len();
            proof {
                assert(line.spec_bytes() =~= whole.take(end as int));
                assert(after.spec_bytes() =~= whole.skip(end + 1));
                assert(frames(lines@) =~= before + seq![strip_carriage_return(whole.take(end as int))]);
            }
        } else {
            lines.push(line);
            rest = tail;
            n = 0;
            proof {
                assert(line.spec_bytes() =~= whole);
                assert(tail.spec_bytes() =~= Seq::<u8>::empty());
                assert(frames(lines@) =~= before + seq![whole]);
                assert(split_lines(tail.spec_bytes()) =~= Seq::<Seq<u8>>::empty());
            }
        }
    }
    assert(split_lines(rest.spec_bytes()) =~= Seq::<Seq<u8>>::empty());
    assert(frames(lines@) + Seq::<Seq<u8>>::empty() =~= frames(lines@));
    lines
}

} // verus!
