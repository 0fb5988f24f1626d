//! Small helpers shared by the request handling: input length validation,
//! comma-separated lists and the current time.
use vstd::prelude::*;

use vstd::string::StrSliceExecFns;

use crate::error::Error;

verus! {

/// The outcome of checking an optional text field against a maximum length
/// in bytes (of its UTF-8 encoding).
pub open spec fn length_checked(
    field_name: &'static str,
    field: Option<&str>,
    maximum_length: u64,
) -> Result<(), Error> {
    match field {
        Some(f) => if f.len() as u64 > maximum_length {
            Err(Error::TooManyCharacters { field: field_name, maximum_length })
        } else {
            Ok(())
        },
        None => Ok(()),
    }
}

/// Rejects a present field whose UTF-8 encoding is longer than
/// `maximum_length` bytes; an absent field always passes.
pub fn check_length(field_name: &'static str, field: Option<&str>, maximum_length: u64) -> (r:
    Result<(), Error>)
    ensures
        r == length_checked(field_name, field, maximum_length),
{
    if let Some(f) = field {
        if f.len() as u64 > maximum_length {
            return Err(Error::TooManyCharacters { field: field_name, maximum_length });
        }
    }
    Ok(())
}

/// The pieces of `s` between the occurrences of `sep`, in order. There is
/// always one piece more than there are separators, so an empty text gives
/// one empty piece.
pub open spec fn split_on(s: Seq<char>, sep: char) -> Seq<Seq<char>>
    decreases s.len(),
{
    if s.len() == 0 {
        seq![Seq::<char>::empty()]
    } else {
        let rest = split_on(s.drop_last(), sep);
        if s.last() == sep {
            rest.push(Seq::<char>::empty())
        } else {
            rest.update(rest.len() - 1, rest.last().push(s.last()))
        }
    }
}

/// Splits a comma-separated list into its items, empty items included.
pub fn split_commas(s: &str) -> (r: Vec<String>)
    ensures
        r@.map_values(|p: String| p@) == split_on(s@, ','),
{
    let n = s.unicode_len();
    let mut pieces: Vec<String> = Vec::new();
    let mut start: usize = 0;
    let mut i: usize = 0;
    proof {
        assert(s@.subrange(0, 0) =~= Seq::<char>::empty());
        assert(s@.subrange(0, 0) =~= s@.subrange(start as int, i as int));
        assert(pieces@.map_values(|p: String| p@).push(s@.subrange(0, 0)) =~= split_on(
            s@.subrange(0, 0),
            ',',
        ));
    }
    while i < n
        invariant
            n == s@.len(),
            start <= i <= n,
            pieces@.map_values(|p: String| p@).push(s@.subrange(start as int, i as int))
                == split_on(s@.subrange(0, i as int), ','),
        decreases n - i,
    {
        let c = s.get_char(i);
        let ghost before = pieces@.map_values(|p: String| p@);
        let ghost prefix = s@.subrange(0, i as int + 1);
        proof {
            assert(prefix.drop_last() =~= s@.subrange(0, i as int));
            assert(prefix.last() == c);
        }
        if c == ',' {
            let piece = s.substring_char(start, i).to_owned();
            pieces.push(piece);
            start = i + 1;
            proof {
                assert(pieces@.map_values(|p: String| p@) =~= before.push(piece@));
                assert(s@.subrange(start as int, i as int + 1) =~= Seq::<char>::empty());
            }
        } else {
            proof {
                assert(s@.subrange(start as int, i as int + 1) =~= s@.subrange(
                    start as int,
                    i as int,
                ).push(c));
                let rest = split_on(s@.subrange(0, i as int), ',');
                assert(rest == before.push(s@.subrange(start as int, i as int)));
                assert(rest.update(rest.len() - 1, rest.last().push(c)) =~= before.push(
                    s@.subrange(start as int, i as int + 1),
                ));
            }
        }
        i = i + 1;
    }
    let last = s.substring_char(start, n).to_owned();
    let ghost before = pieces@.map_values(|p: String| p@);
    pieces.push(last);
    proof {
        assert(s@.subrange(0, n as int) =~= s@);
        assert(pieces@.map_values(|p: String| p@) =~= before.push(last@));
    }
    pieces
}

/// Relies on `SystemTime::elapsed` on the UNIX epoch: whole seconds since
/// the epoch, or nothing where the clock stands before it. Nothing is known
/// of the value, which is the time now.
#[verifier::external_body]
fn seconds_since_epoch() -> (r: Option<u64>) {
    match std::time::SystemTime::UNIX_EPOCH.elapsed() {
        Ok(d) => Some(d.as_secs()),
        Err(_) => None,
    }
}

/// A reading of whole seconds since the epoch as a signed 64-bit timestamp:
/// absent where there is no reading or it does not fit.
pub open spec fn timestamp_of(secs: Option<u64>) -> Option<i64> {
    match secs {
        Some(s) => if s <= i64::MAX as u64 {
            Some(s as i64)
        } else {
            None
        },
        None => None,
    }
}

/// Turns a reading of whole seconds since the epoch into a timestamp.
pub fn timestamp_from_secs(secs: Option<u64>) -> (r: Option<i64>)
    ensures
        r == timestamp_of(secs),
{
    match secs {
        Some(s) => if s <= i64::MAX as u64 {
            Some(s as i64)
        } else {
            None
        },
        None => None,
    }
}

/// The current time in unix-epoch seconds, or `None` where the system clock
/// cannot give it as a non-negative 64-bit signed number.
pub fn unix_timestamp() -> (r: Option<i64>)
    ensures
        r matches Some(t) ==> t >= 0,
{
    timestamp_from_secs(seconds_since_epoch())
}

} // verus!
