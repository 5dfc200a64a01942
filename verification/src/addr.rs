//! Email addresses as the library models them: a validated address is the
//! exact input string that the address parser accepted. Comma-separated
//! address lists, as typed in the compose form, are split and trimmed here
//! and each entry is validated individually.

use vstd::prelude::*;
use vstd::string::*;

verus! {

/// Whether the address parser accepts `s` as an RFC5321 mailbox
/// (`user@domain`). The predicate is decided by `lettre::Address`'s parser
/// and is a function of the characters alone.
pub uninterp spec fn addr_ok(s: Seq<char>) -> bool;

/// Relies on `lettre::Address`'s `FromStr`: it accepts exactly the strings
/// of the shape `user@domain` with a valid user and domain part, and its
/// verdict depends on the input characters alone.
#[verifier::external_body]
fn address_is_valid(s: &str) -> (ok: bool)
    ensures
        ok == addr_ok(s@),
{
    s.parse::<lettre::Address>().is_ok()
}

/// A validated email address: the exact string that the address parser
/// accepted. Only `parse_address` constructs one.
#[derive(Debug, Clone)]
pub struct EmailAddress {
    raw: String,
}

impl View for EmailAddress {
    type V = Seq<char>;

    closed spec fn view(&self) -> Seq<char> {
        self.raw@
    }
}

impl EmailAddress {
    /// The address as a string slice.
    pub fn as_str(&self) -> (r: &str)
        ensures
            r@ == self@,
    {
        self.raw.as_str()
    }

}

/// Validates one address: returns it exactly when the address parser
/// accepts the whole input.
pub fn parse_address(s: &str) -> (r: Option<EmailAddress>)
    ensures
        r matches Some(a) ==> a@ == s@ && addr_ok(s@),
        r is None ==> !addr_ok(s@),
{
    if address_is_valid(s) {
        Some(EmailAddress { raw: s.to_owned() })
    } else {
        None
    }
}

/// The characters stripped from the ends of each comma-separated entry:
/// the Unicode `White_Space` code points.
pub open spec fn is_addr_space(c: char) -> bool {
    ||| c == ' '
    ||| c == '\t'
    ||| c == '\n'
    ||| c == '\u{B}'
    ||| c == '\u{C}'
    ||| c == '\r'
    ||| c == '\u{85}'
    ||| c == '\u{A0}'
    ||| c == '\u{1680}'
    ||| c == '\u{2000}'
    ||| c == '\u{2001}'
    ||| c == '\u{2002}'
    ||| c == '\u{2003}'
    ||| c == '\u{2004}'
    ||| c == '\u{2005}'
    ||| c == '\u{2006}'
    ||| c == '\u{2007}'
    ||| c == '\u{2008}'
    ||| c == '\u{2009}'
    ||| c == '\u{200A}'
    ||| c == '\u{2028}'
    ||| c == '\u{2029}'
    ||| c == '\u{202F}'
    ||| c == '\u{205F}'
    ||| c == '\u{3000}'
}

/// `s` without its leading whitespace.
pub open spec fn trim_front(s: Seq<char>) -> Seq<char>
    decreases s.len(),
{
    if s.len() > 0 && is_addr_space(s.first()) {
        trim_front(s.drop_first())
    } else {
        s
    }
}

/// `s` without its trailing whitespace.
pub open spec fn trim_back(s: Seq<char>) -> Seq<char>
    decreases s.len(),
{
    if s.len() > 0 && is_addr_space(s.last()) {
        trim_back(s.drop_last())
    } else {
        s
    }
}

/// `s` without leading or trailing whitespace.
pub open spec fn spec_trim(s: Seq<char>) -> Seq<char> {
    trim_back(trim_front(s))
}

proof fn lemma_trim_front_skip(s: Seq<char>, i: int)
    requires
        0 <= i <= s.len(),
        forall|j: int| 0 <= j < i ==> is_addr_space(#[trigger] s[j]),
    ensures
        trim_front(s) == trim_front(s.skip(i)),
    decreases i,
{
    if i > 0 {
        assert(s.len() > 0 && is_addr_space(s.first()));
        assert(s.drop_first() =~= s.skip(1));
        assert forall|j: int| 0 <= j < i - 1 implies is_addr_space(#[trigger] s.skip(1)[j]) by {
            assert(s.skip(1)[j] == s[j + 1]);
        }
        lemma_trim_front_skip(s.skip(1), i - 1);
        assert(s.skip(1).skip(i - 1) =~= s.skip(i));
    } else {
        assert(s.skip(0) =~= s);
    }
}

proof fn lemma_trim_back_take(s: Seq<char>, i: int)
    requires
        0 <= i <= s.len(),
        forall|j: int| i <= j < s.len() ==> is_addr_space(#[trigger] s[j]),
    ensures
        trim_back(s) == trim_back(s.take(i)),
    decreases s.len() - i,
{
    if i < s.len() {
        assert(s.len() > 0 && is_addr_space(s.last()));
        assert(s.drop_last() =~= s.take(s.len() - 1));
        lemma_trim_back_take(s.take(s.len() - 1), i);
        assert(s.take(s.len() - 1).take(i) =~= s.take(i));
    } else {
        assert(s.take(i) =~= s);
    }
}

/// Strips leading and trailing whitespace from `s`.
pub fn trim(s: &str) -> (r: String)
    ensures
        r@ == spec_trim(s@),
{
    let n = s.unicode_len();
    let mut start: usize = 0;
    while start < n && is_space_char(s.get_char(start))
        invariant
            n == s@.len(),
            start <= n,
            forall|j: int| 0 <= j < start ==> is_addr_space(#[trigger] s@[j]),
        decreases n - start,
    {
        start = start + 1;
    }
    proof {
        lemma_trim_front_skip(s@, start as int);
        if start < n {
            assert(trim_front(s@.skip(start as int)) == s@.skip(start as int));
        } else {
            assert(s@.skip(start as int) =~= Seq::<char>::empty());
        }
    }
    let mut end: usize = n;
    while end > start && is_space_char(s.get_char(end - 1))
        invariant
            n == s@.len(),
            start <= end <= n,
            forall|j: int| end <= j < n ==> is_addr_space(#[trigger] s@[j]),
        decreases end,
    {
        end = end - 1;
    }
    let r = s.substring_char(start, end).to_owned();
    proof {
        let front = s@.skip(start as int);
        lemma_trim_back_take(front, end - start);
        if end > start {
            assert(front.take(end - start).last() == s@[end - 1]);
            assert(trim_back(front.take(end - start)) == front.take(end - start));
        } else {
            assert(front.take(end - start) =~= Seq::<char>::empty());
        }
        assert(front.take(end - start) =~= s@.subrange(start as int, end as int));
    }
    r
}

/// Exec mirror of `is_addr_space`.
fn is_space_char(c: char) -> (b: bool)
    ensures
        b == is_addr_space(c),
{
    c == ' ' || c == '\t' || c == '\n' || c == '\u{B}' || c == '\u{C}' || c == '\r'
        || c == '\u{85}' || c == '\u{A0}' || c == '\u{1680}'
        || (c >= '\u{2000}' && c <= '\u{200A}') || c == '\u{2028}' || c == '\u{2029}'
        || c == '\u{202F}' || c == '\u{205F}' || c == '\u{3000}'
}

/// The `sep`-separated segments of `s`, with `acc` the part of the current
/// segment already read. Splitting `"a,b"` at `','` gives `["a", "b"]`; a
/// trailing separator contributes an empty final segment, and an empty
/// input gives one empty segment.
pub open spec fn split_at_from(s: Seq<char>, sep: char, acc: Seq<char>) -> Seq<Seq<char>>
    decreases s.len(),
{
    if s.len() == 0 {
        seq![acc]
    } else if s.first() == sep {
        seq![acc] + split_at_from(s.drop_first(), sep, Seq::empty())
    } else {
        split_at_from(s.drop_first(), sep, acc.push(s.first()))
    }
}

/// The `sep`-separated segments of `s`.
pub open spec fn split_at_char(s: Seq<char>, sep: char) -> Seq<Seq<char>> {
    split_at_from(s, sep, Seq::empty())
}

/// The comma-separated segments of `s`.
pub open spec fn split_commas(s: Seq<char>) -> Seq<Seq<char>> {
    split_at_char(s, ',')
}

/// The views of a vector of strings.
pub open spec fn string_views(v: Seq<String>) -> Seq<Seq<char>> {
    v.map_values(|x: String| x@)
}

/// Splits `s` at every occurrence of `sep`, keeping empty segments.
pub fn split_on_char(s: &str, sep: char) -> (parts: Vec<String>)
    ensures
        string_views(parts@) == split_at_char(s@, sep),
{
    let n = s.unicode_len();
    let mut parts: Vec<String> = Vec::new();
    let mut start: usize = 0;
    proof {
        assert(s@.skip(0) =~= s@);
        assert(s@.subrange(0, 0) =~= Seq::<char>::empty());
        assert(string_views(Seq::<String>::empty()) =~= Seq::<Seq<char>>::empty());
        assert(Seq::<Seq<char>>::empty() + split_at_from(s@, sep, Seq::empty())
            =~= split_at_char(s@, sep));
    }
    for i in 0..n
        invariant
            n == s@.len(),
            start <= i <= n,
            string_views(parts@) + split_at_from(
                s@.skip(i as int),
                sep,
                s@.subrange(start as int, i as int),
            ) =~= split_at_char(s@, sep),
    {
        let ghost rest = s@.skip(i as int);
        let ghost cur = s@.subrange(start as int, i as int);
        proof {
            assert(rest.len() > 0);
            assert(rest.first() == s@[i as int]);
            assert(rest.drop_first() =~= s@.skip(i + 1));
        }
        if s.get_char(i) == sep {
            parts.push(s.substring_char(start, i).to_owned());
            start = i + 1;
            proof {
                assert(s@.subrange(start as int, i + 1) =~= Seq::<char>::empty());
                assert(string_views(parts@) =~= string_views(parts@.drop_last()).push(cur));
                assert(string_views(parts@) + split_at_from(s@.skip(i + 1), sep, Seq::empty())
                    =~= split_at_char(s@, sep));
            }
        } else {
            proof {
                assert(cur.push(s@[i as int]) =~= s@.subrange(start as int, i + 1));
            }
        }
    }
    parts.push(s.substring_char(start, n).to_owned());
    proof {
        assert(s@.skip(n as int) =~= Seq::<char>::empty());
        assert(string_views(parts@) =~= string_views(parts@.drop_last()).push(
            s@.subrange(start as int, n as int),
        ));
    }
    parts
}

/// A rejected entry in an address list.
#[derive(Debug, Clone, Copy, PartialEq, Eq, Structural)]
pub enum AddressError {
    /// Some comma-separated entry was not a valid address.
    Invalid,
}

/// Each comma-separated segment of `s`, trimmed.
pub open spec fn trimmed_segments(s: Seq<char>) -> Seq<Seq<char>> {
    split_commas(s).map_values(|seg: Seq<char>| spec_trim(seg))
}

/// The views of a vector of addresses.
pub open spec fn addr_views(v: Seq<EmailAddress>) -> Seq<Seq<char>> {
    v.map_values(|a: EmailAddress| a@)
}

/// What an address-list input denotes: nothing for the empty input, and
/// otherwise each comma-separated segment trimmed — provided every segment
/// is a valid address.
pub open spec fn spec_parse_addresses(s: Seq<char>) -> Option<Seq<Seq<char>>> {
    if s.len() == 0 {
        Some(Seq::empty())
    } else {
        let segs = trimmed_segments(s);
        if forall|k: int| 0 <= k < segs.len() ==> addr_ok(#[trigger] segs[k]) {
            Some(segs)
        } else {
            None
        }
    }
}

/// Parses a comma-separated address list: an empty input is an empty list;
/// otherwise every segment is trimmed and validated, and one bad segment
/// rejects the whole list.
pub fn parse_addresses(s: &str) -> (r: Result<Vec<EmailAddress>, AddressError>)
    ensures
        r matches Ok(v) ==> spec_parse_addresses(s@) == Some(addr_views(v@)),
        r is Err ==> spec_parse_addresses(s@) is None && r == Err::<
            Vec<EmailAddress>,
            AddressError,
        >(AddressError::Invalid),
{
    if s.is_empty() {
        return Ok(Vec::new());
    }
    let parts = split_on_char(s, ',');
    let ghost segs = trimmed_segments(s@);
    let mut out: Vec<EmailAddress> = Vec::new();
    let mut idx: usize = 0;
    while idx < parts.len()
        invariant
            s@.len() != 0,
            string_views(parts@) == split_commas(s@),
            segs == trimmed_segments(s@),
            idx <= parts.len(),
            out@.len() == idx,
            forall|k: int| 0 <= k < idx ==> addr_views(out@)[k] == segs[k]
                && addr_ok(#[trigger] segs[k]),
        decreases parts.len() - idx,
    {
        let entry = trim(parts[idx].as_str());
        proof {
            assert(segs[idx as int] == spec_trim(string_views(parts@)[idx as int]));
            assert(string_views(parts@)[idx as int] == parts@[idx as int]@);
        }
        match parse_address(entry.as_str()) {
            Some(a) => {
                out.push(a);
            }
            None => {
                proof {
                    assert(segs.len() == parts@.len());
                    assert(0 <= idx < trimmed_segments(s@).len());
                    assert(!addr_ok(trimmed_segments(s@)[idx as int]));
                    assert(spec_parse_addresses(s@) is None);
                }
                return Err(AddressError::Invalid);
            }
        }
        idx = idx + 1;
    }
    proof {
        assert(addr_views(out@) =~= segs);
    }
    Ok(out)
}

} // verus!
