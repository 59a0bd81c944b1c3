//! What a scan visits: the range options, where the cursor starts for them,
//! and when the scan stops.

use crate::order::{compare, lemma_compare_antisymmetric, lemma_prefix_sorts_first, lex_order};
use std::cmp::Ordering;
use vstd::prelude::*;

verus! {

/// The options of one scan. `limit` is the largest number of records to
/// emit, with `-1` for no limit; `gte` and `lte` are the inclusive lower and
/// upper bounds on the keys.
#[derive(Clone, Debug, PartialEq, Eq)]
pub struct IterationOption {
    pub limit: i64,
    pub reverse: bool,
    pub gte: Option<Vec<u8>>,
    pub lte: Option<Vec<u8>>,
}

/// The options of a scan as mathematical values.
pub struct RangeSpec {
    pub limit: i64,
    pub reverse: bool,
    pub lower: Option<Seq<u8>>,
    pub upper: Option<Seq<u8>>,
}

/// The bytes of an optional key.
pub open spec fn bound_view(bound: Option<Vec<u8>>) -> Option<Seq<u8>> {
    match bound {
        Some(key) => Some(key@),
        None => None,
    }
}

impl View for IterationOption {
    type V = RangeSpec;

    open spec fn view(&self) -> RangeSpec {
        RangeSpec {
            limit: self.limit,
            reverse: self.reverse,
            lower: bound_view(self.gte),
            upper: bound_view(self.lte),
        }
    }
}

/// The way a cursor walks the keys.
#[derive(Clone, Copy, Debug, PartialEq, Eq, Structural)]
pub enum Direction {
    Forward,
    Reverse,
}

/// Where a cursor starts and which way it walks: at the first key, at the
/// last key, or at an explicit key in a given direction.
#[derive(Clone, Copy, Debug, PartialEq, Eq)]
pub enum IterationMode<'a> {
    Start,
    End,
    From(&'a [u8], Direction),
}

/// A cursor position as mathematical values.
pub enum CursorStart {
    Start,
    End,
    From(Seq<u8>, Direction),
}

impl<'a> View for IterationMode<'a> {
    type V = CursorStart;

    open spec fn view(&self) -> CursorStart {
        match *self {
            IterationMode::Start => CursorStart::Start,
            IterationMode::End => CursorStart::End,
            IterationMode::From(key, direction) => CursorStart::From(key@, direction),
        }
    }
}

/// A cursor position that owns its key, to be handed from one place to
/// another.
#[derive(Clone, Debug, PartialEq, Eq)]
pub enum Seek {
    Start,
    End,
    From(Vec<u8>, Direction),
}

impl View for Seek {
    type V = CursorStart;

    open spec fn view(&self) -> CursorStart {
        match *self {
            Seek::Start => CursorStart::Start,
            Seek::End => CursorStart::End,
            Seek::From(key, direction) => CursorStart::From(key@, direction),
        }
    }
}

impl Seek {
    /// The position, with its key on loan.
    pub fn mode(&self) -> (mode: IterationMode<'_>)
        ensures
            mode@ == self@,
    {
        match self {
            Seek::Start => IterationMode::Start,
            Seek::End => IterationMode::End,
            Seek::From(key, direction) => IterationMode::From(key.as_slice(), *direction),
        }
    }
}

/// A scan with neither bound visits the whole keyspace.
pub open spec fn unbounded(range: RangeSpec) -> bool {
    range.lower is None && range.upper is None
}

/// A key of `len` bytes, each of them `byte`.
pub open spec fn filler(byte: u8, len: nat) -> Seq<u8> {
    Seq::new(len, |i: int| byte)
}

/// The key at which a bounded scan starts. A reverse scan starts at the
/// upper bound, a forward scan at the lower bound. Where that bound is
/// missing the start is made up: as many bytes as the other bound has, all
/// `0xFF` for a reverse scan and all `0x00` for a forward one.
pub open spec fn start_key(range: RangeSpec) -> Seq<u8>
    recommends
        !unbounded(range),
{
    if range.reverse {
        match range.upper {
            Some(key) => key,
            None => filler(0xFF, range.lower.unwrap().len()),
        }
    } else {
        match range.lower {
            Some(key) => key,
            None => filler(0x00, range.upper.unwrap().len()),
        }
    }
}

/// Where the cursor starts for the given options.
pub open spec fn resolve_cursor(range: RangeSpec) -> CursorStart {
    if unbounded(range) {
        if range.reverse {
            CursorStart::End
        } else {
            CursorStart::Start
        }
    } else if range.reverse {
        CursorStart::From(start_key(range), Direction::Reverse)
    } else {
        CursorStart::From(start_key(range), Direction::Forward)
    }
}

/// A made-up start lies on the outer side of every key of its length: no
/// key of `n` bytes sorts before `n` bytes of `0x00`, and none sorts after
/// `n` bytes of `0xFF`.
pub proof fn lemma_filler_encloses_keys_of_its_length(key: Seq<u8>)
    ensures
        lex_order(filler(0x00, key.len()), key) != Ordering::Greater,
        lex_order(filler(0xFF, key.len()), key) != Ordering::Less,
    decreases key.len(),
{
    if key.len() > 0 {
        let rest = key.skip(1);
        lemma_filler_encloses_keys_of_its_length(rest);
        assert(filler(0x00, key.len()).skip(1) =~= filler(0x00, rest.len()));
        assert(filler(0xFF, key.len()).skip(1) =~= filler(0xFF, rest.len()));
    }
}

/// A scan whose one bound is missing does not halt at the start that was
/// made up for it, as long as its limit lets a first record through.
pub proof fn lemma_made_up_start_is_in_range(range: RangeSpec)
    requires
        range.limit == -1 || range.limit > 0,
        if range.reverse {
            range.upper is None && range.lower is Some
        } else {
            range.lower is None && range.upper is Some
        },
    ensures
        !out_of_range(range, start_key(range), 0),
{
    if range.reverse {
        lemma_filler_encloses_keys_of_its_length(range.lower.unwrap());
    } else {
        lemma_filler_encloses_keys_of_its_length(range.upper.unwrap());
    }
}

/// A copy of `bound` if it is set, and else `len_of.len()` bytes of `byte`.
fn bound_or_filler(bound: &Option<Vec<u8>>, len_of: &Option<Vec<u8>>, byte: u8) -> (key: Vec<u8>)
    requires
        bound is Some || len_of is Some,
    ensures
        key@ == (match *bound {
            Some(b) => b@,
            None => filler(byte, len_of.unwrap()@.len()),
        }),
{
    match bound {
        Some(b) => b.clone(),
        None => vec![byte; len_of.as_ref().unwrap().len()],
    }
}

/// Resolves the options of a scan to the position at which its cursor
/// starts. A bounded scan starts from an explicit key, which is left in
/// `range` and lent to the result; a scan without bounds leaves `range`
/// as it was.
pub fn get_iteration_mode<'a>(
    options: &IterationOption,
    range: &'a mut Vec<u8>,
) -> (mode: IterationMode<'a>)
    ensures
        mode@ == resolve_cursor(options@),
        final(range)@ == (if unbounded(options@) {
            old(range)@
        } else {
            start_key(options@)
        }),
{
    let no_range = options.gte.is_none() && options.lte.is_none();
    if no_range {
        if options.reverse {
            IterationMode::End
        } else {
            IterationMode::Start
        }
    } else if options.reverse {
        *range = bound_or_filler(&options.lte, &options.gte, 0xFF);
        IterationMode::From(range.as_slice(), Direction::Reverse)
    } else {
        *range = bound_or_filler(&options.gte, &options.lte, 0x00);
        IterationMode::From(range.as_slice(), Direction::Forward)
    }
}

/// The position at which the cursor of a scan starts, with a key of its
/// own.
pub fn resolve_seek(options: &IterationOption) -> (seek: Seek)
    ensures
        seek@ == resolve_cursor(options@),
{
    let mut range: Vec<u8> = Vec::new();
    let direction = match get_iteration_mode(options, &mut range) {
        IterationMode::Start => {
            return Seek::Start;
        },
        IterationMode::End => {
            return Seek::End;
        },
        IterationMode::From(_, direction) => direction,
    };
    Seek::From(range, direction)
}

/// Whether a scan halts before emitting `key` as its record number
/// `position` (counted from zero): the limit is reached, or the cursor has
/// walked past the bound that lies ahead of it. That is the lower bound
/// for a reverse scan and the upper bound for a forward one, and a key equal
/// to the bound is still inside.
pub open spec fn out_of_range(range: RangeSpec, key: Seq<u8>, position: i64) -> bool {
    ||| range.limit != -1 && position >= range.limit
    ||| range.reverse && range.lower is Some && lex_order(key, range.lower.unwrap())
        == Ordering::Less
    ||| !range.reverse && range.upper is Some && lex_order(key, range.upper.unwrap())
        == Ordering::Greater
}

/// Decides whether the scan must halt before emitting `key`, having
/// emitted `counter` records so far.
pub fn is_key_out_of_range(options: &IterationOption, key: &[u8], counter: i64) -> (halt: bool)
    ensures
        halt == out_of_range(options@, key@, counter),
{
    if options.limit != -1 && counter >= options.limit {
        return true;
    }
    if options.reverse {
        if let Some(gte) = &options.gte {
            if let Ordering::Less = compare(key, gte.as_slice()) {
                return true;
            }
        }
    } else if let Some(lte) = &options.lte {
        if let Ordering::Greater = compare(key, lte.as_slice()) {
            return true;
        }
    }
    false
}

/// Bounds are inclusive: while the limit is not reached, a key equal to the
/// bound ahead of the cursor is not out of range.
pub proof fn lemma_bound_is_inclusive(range: RangeSpec, key: Seq<u8>, position: i64)
    requires
        range.limit == -1 || position < range.limit,
        if range.reverse {
            range.lower == Some(key)
        } else {
            range.upper == Some(key)
        },
    ensures
        !out_of_range(range, key, position),
{
    lemma_compare_antisymmetric(key, key);
}

/// Past the bound is outside: a forward scan halts at every key that sorts
/// after its upper bound, and a reverse scan at every key that sorts before
/// its lower bound, whatever the position.
pub proof fn lemma_beyond_bound_is_excluded(range: RangeSpec, key: Seq<u8>, position: i64)
    requires
        if range.reverse {
            range.lower is Some && lex_order(key, range.lower.unwrap()) == Ordering::Less
        } else {
            range.upper is Some && lex_order(key, range.upper.unwrap()) == Ordering::Greater
        },
    ensures
        out_of_range(range, key, position),
{
}

/// The closest key after an upper bound, the bound with one more byte, is
/// already outside a forward scan.
pub proof fn lemma_next_key_is_excluded(range: RangeSpec, byte: u8, position: i64)
    requires
        !range.reverse,
        range.upper is Some,
    ensures
        out_of_range(range, range.upper.unwrap().push(byte), position),
{
    let bound = range.upper.unwrap();
    lemma_prefix_sorts_first(bound, seq![byte]);
    assert(bound.push(byte) =~= bound + seq![byte]);
    lemma_compare_antisymmetric(bound, bound.push(byte));
}

} // verus!
