//! The line processor: a payload is cut into lines, each line is mapped by
//! itself to an entry, to nothing or to an error, and the entries are put
//! into a collection in the order of their lines. One error fails the whole
//! payload.

use vstd::prelude::*;
use crate::collection::EntryMap;
use crate::error::CacheError;
use crate::error::ErrorKind;

verus! {

/// The byte that ends a line.
pub const NEWLINE: u8 = 10;

/// The byte that starts a comment line.
pub const HASH: u8 = 35;

/// The byte between key and value.
pub const EQUALS: u8 = 61;

/// The first position at or after `from` that holds `byte`, or the length
/// where there is none.
pub open spec fn first_index(s: Seq<u8>, byte: u8, from: int) -> int
    decreases s.len() - from,
{
    if from < 0 || from >= s.len() {
        s.len() as int
    } else if s[from] == byte {
        from
    } else {
        first_index(s, byte, from + 1)
    }
}

/// The lines of `raw` from position `start` on: each runs up to the next
/// newline, which belongs to no line, and what follows the last newline is a
/// line where it is not empty.
pub open spec fn lines_from(raw: Seq<u8>, start: int) -> Seq<Seq<u8>>
    decreases raw.len() - start,
{
    if start < 0 || start >= raw.len() {
        Seq::empty()
    } else {
        let end = first_index(raw, NEWLINE, start);
        if start <= end < raw.len() {
            seq![raw.subrange(start, end)] + lines_from(raw, end + 1)
        } else {
            seq![raw.subrange(start, raw.len() as int)]
        }
    }
}

/// The lines of a payload.
pub open spec fn lines_of(raw: Seq<u8>) -> Seq<Seq<u8>> {
    lines_from(raw, 0)
}

/// The contents of each line.
pub open spec fn views(lines: Seq<Vec<u8>>) -> Seq<Seq<u8>> {
    Seq::new(lines.len(), |i: int| lines[i]@)
}

/// What a line is mapped to: an entry, nothing, or an error's message.
pub type Mapped<Val> = Result<Option<(Seq<u8>, Val)>, Seq<char>>;

/// What a run of lines is processed to under the mapping `f`: the message of
/// the first line that fails, or else the entries of the lines that give
/// one, put in turn.
pub open spec fn processed<Val>(lines: Seq<Seq<u8>>, f: spec_fn(Seq<u8>) -> Mapped<Val>) -> Result<
    Map<Seq<u8>, Val>,
    Seq<char>,
>
    decreases lines.len(),
{
    if lines.len() == 0 {
        Ok(Map::empty())
    } else {
        match processed(lines.drop_last(), f) {
            Err(message) => Err(message),
            Ok(entries) => match f(lines.last()) {
                Err(message) => Err(message),
                Ok(None) => Ok(entries),
                Ok(Some((key, value))) => Ok(entries.insert(key, value)),
            },
        }
    }
}

/// The first position at or after `from` that holds `byte`.
pub fn find_from(s: &[u8], byte: u8, from: usize) -> (r: usize)
    requires
        from <= s.len(),
    ensures
        r == first_index(s@, byte, from as int),
        from <= r <= s.len(),
        r < s.len() ==> s@[r as int] == byte,
{
    let mut i: usize = from;
    while i < s.len()
        invariant
            from <= i <= s.len(),
            first_index(s@, byte, from as int) == first_index(s@, byte, i as int),
        decreases s.len() - i,
    {
        if s[i] == byte {
            return i;
        }
        i = i + 1;
    }
    i
}

/// A copy of the bytes from `from` up to `to`.
pub fn copy_range(s: &[u8], from: usize, to: usize) -> (r: Vec<u8>)
    requires
        from <= to <= s.len(),
    ensures
        r@ == s@.subrange(from as int, to as int),
{
    let mut out: Vec<u8> = Vec::new();
    let mut i: usize = from;
    while i < to
        invariant
            from <= i <= to <= s.len(),
            out@ == s@.subrange(from as int, i as int),
        decreases to - i,
    {
        out.push(s[i]);
        proof {
            assert(out@ =~= s@.subrange(from as int, i + 1));
        }
        i = i + 1;
    }
    out
}

/// Cuts a payload into its lines.
pub fn split_lines(raw: &[u8]) -> (r: Vec<Vec<u8>>)
    ensures
        views(r@) == lines_of(raw@),
{
    let n: usize = raw.len();
    let mut out: Vec<Vec<u8>> = Vec::new();
    let mut start: usize = 0;
    proof {
        assert(views(out@) + lines_from(raw@, 0) =~= lines_from(raw@, 0));
    }
    while start < n
        invariant
            n == raw@.len(),
            start <= n,
            lines_of(raw@) == views(out@) + lines_from(raw@, start as int),
        decreases n - start,
    {
        let end: usize = find_from(raw, NEWLINE, start);
        let line = copy_range(raw, start, end);
        proof {
            let rest = lines_from(raw@, if end < n {
                end + 1
            } else {
                n as int
            });
            assert(lines_from(raw@, start as int) == seq![line@] + rest);
            assert(views(out@.push(line)) =~= views(out@) + seq![line@]);
            assert((views(out@) + seq![line@]) + rest =~= views(out@) + (seq![line@] + rest));
        }
        out.push(line);
        if end == n {
            start = n;
        } else {
            start = end + 1;
        }
    }
    proof {
        assert(views(out@) + lines_from(raw@, start as int) =~= views(out@));
    }
    out
}

/// The mapping of one line to an entry, to nothing (the line is skipped) or
/// to an error, which fails the payload it stands in.
pub trait LineMapper<Val> {
    /// What a line is mapped to.
    spec fn mapped(&self, line: Seq<u8>) -> Mapped<Val>;

    /// Maps one line. An error it gives is an error of processing.
    fn map_line(&self, line: &[u8]) -> (r: Result<Option<(Vec<u8>, Val)>, CacheError>)
        ensures
            match r {
                Ok(None) => self.mapped(line@) == Mapped::<Val>::Ok(None),
                Ok(Some(entry)) => self.mapped(line@) == Mapped::<Val>::Ok(
                    Some((entry.0@, entry.1)),
                ),
                Err(e) => e.kind == ErrorKind::Process && self.mapped(line@) == Mapped::<
                    Val,
                >::Err(e.message@),
            },
    ;
}

/// A processor that maps a payload line by line.
pub struct RawLineMapProcessor<M> {
    mapper: M,
}

impl<M> RawLineMapProcessor<M> {
    /// The mapping of the lines.
    pub closed spec fn spec_mapper(&self) -> M {
        self.mapper
    }

    /// A processor that maps each line with `mapper`.
    pub fn new(mapper: M) -> (r: RawLineMapProcessor<M>)
        ensures
            r.spec_mapper() == mapper,
    {
        RawLineMapProcessor { mapper }
    }

    /// Processes a payload: the collection of the entries that its lines
    /// give, a later entry replacing an earlier one with the same key, or the
    /// error of the first line that fails. It reads nothing but the payload.
    pub fn process<Val>(&self, raw: &[u8]) -> (r: Result<EntryMap<Val>, CacheError>) where
        M: LineMapper<Val>,

        ensures
            match processed(lines_of(raw@), |line: Seq<u8>| self.spec_mapper().mapped(line)) {
                Ok(entries) => r matches Ok(collection) && collection@ == entries,
                Err(message) => r matches Err(e) && e.kind == ErrorKind::Process && e.message@
                    == message,
            },
    {
        let lines = split_lines(raw);
        let ghost f = |line: Seq<u8>| self.spec_mapper().mapped(line);
        let mut collection: EntryMap<Val> = EntryMap::new();
        let mut i: usize = 0;
        proof {
            assert(views(lines@).take(0) =~= Seq::<Seq<u8>>::empty());
        }
        while i < lines.len()
            invariant
                i <= lines.len(),
                views(lines@) == lines_of(raw@),
                f == (|line: Seq<u8>| self.spec_mapper().mapped(line)),
                processed(views(lines@).take(i as int), f) == Ok::<Map<Seq<u8>, Val>, Seq<char>>(
                    collection@,
                ),
            decreases lines.len() - i,
        {
            let ghost upto = views(lines@).take(i + 1);
            proof {
                assert(upto.drop_last() =~= views(lines@).take(i as int));
                assert(upto.last() == lines@[i as int]@);
            }
            match self.mapper.map_line(lines[i].as_slice()) {
                Err(e) => {
                    proof {
                        lemma_error_stays(views(lines@), f, i + 1);
                        assert(views(lines@).take(lines.len() as int) =~= views(lines@));
                    }
                    return Err(e);
                },
                Ok(None) => {},
                Ok(Some(entry)) => {
                    collection.insert(entry.0, entry.1);
                },
            }
            i = i + 1;
        }
        proof {
            assert(views(lines@).take(i as int) =~= views(lines@));
        }
        Ok(collection)
    }
}

/// Once a line has failed, the lines after it change nothing: the error of a
/// run of lines is that of its first line that fails.
pub proof fn lemma_error_stays<Val>(
    lines: Seq<Seq<u8>>,
    f: spec_fn(Seq<u8>) -> Mapped<Val>,
    upto: int,
)
    requires
        0 <= upto <= lines.len(),
        processed(lines.take(upto), f) is Err,
    ensures
        processed(lines, f) == processed(lines.take(upto), f),
    decreases lines.len() - upto,
{
    if upto < lines.len() {
        assert(lines.take(upto + 1).drop_last() =~= lines.take(upto));
        lemma_error_stays(lines, f, upto + 1);
    } else {
        assert(lines.take(upto) =~= lines);
    }
}

/// A later entry replaces an earlier one: after a line that gives an entry,
/// the collection holds that entry's value under its key, whatever the lines
/// before it gave.
pub proof fn lemma_last_entry_wins<Val>(
    lines: Seq<Seq<u8>>,
    line: Seq<u8>,
    f: spec_fn(Seq<u8>) -> Mapped<Val>,
    key: Seq<u8>,
    value: Val,
)
    requires
        processed(lines, f) is Ok,
        f(line) == Mapped::<Val>::Ok(Some((key, value))),
    ensures
        processed(lines.push(line), f) matches Ok(entries) && entries.contains_key(key)
            && entries[key] == value,
{
    assert(lines.push(line).drop_last() =~= lines);
}

/// A line that is skipped leaves the collection as the lines before it made
/// it.
pub proof fn lemma_skipped_line_changes_nothing<Val>(
    lines: Seq<Seq<u8>>,
    line: Seq<u8>,
    f: spec_fn(Seq<u8>) -> Mapped<Val>,
)
    requires
        f(line) == Mapped::<Val>::Ok(None),
    ensures
        processed(lines.push(line), f) == processed(lines, f),
{
    assert(lines.push(line).drop_last() =~= lines);
}

} // verus!
