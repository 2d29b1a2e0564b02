//! Email tags and their wire encoding.
//!
//! Tags are strings; their wire form joins them with the reserved separator
//! `$`, which is therefore forbidden inside a tag. Encoding and decoding are
//! specified by `spec_join` and `spec_split`, and decoding an encoded
//! non-empty tag list is proved to give the list back.

use vstd::prelude::*;

use crate::error::ValidationError;

verus! {

/// The reserved separator of the tag wire encoding.
pub const TAG_SEPARATOR: char = '$';

/// A valid tag does not contain the separator.
pub open spec fn tag_ok(s: Seq<char>) -> bool {
    forall|i: int| 0 <= i < s.len() ==> s[i] != TAG_SEPARATOR
}

/// Every tag of the list is valid.
pub open spec fn all_tags_ok(tags: Seq<Seq<char>>) -> bool {
    forall|i: int| 0 <= i < tags.len() ==> tag_ok(#[trigger] tags[i])
}

/// The character sequences of a list of strings.
pub open spec fn strings_view(v: Seq<String>) -> Seq<Seq<char>> {
    Seq::new(v.len(), |i: int| v[i]@)
}

/// The wire encoding: the tags joined with the separator.
pub open spec fn spec_join(tags: Seq<Seq<char>>) -> Seq<char>
    decreases tags.len(),
{
    if tags.len() == 0 {
        Seq::empty()
    } else if tags.len() == 1 {
        tags[0]
    } else {
        tags[0] + seq![TAG_SEPARATOR] + spec_join(tags.drop_first())
    }
}

/// The wire decoding: the maximal separator-free pieces, in order. An empty
/// input decodes to one empty tag.
pub open spec fn spec_split(s: Seq<char>) -> Seq<Seq<char>>
    decreases s.len(),
{
    if s.len() == 0 {
        seq![Seq::<char>::empty()]
    } else if s[0] == TAG_SEPARATOR {
        seq![Seq::<char>::empty()] + spec_split(s.drop_first())
    } else {
        let rest = spec_split(s.drop_first());
        seq![seq![s[0]] + rest[0]] + rest.drop_first()
    }
}

/// A split never comes back empty.
pub proof fn lemma_split_len(s: Seq<char>)
    ensures
        spec_split(s).len() >= 1,
    decreases s.len(),
{
    if s.len() > 0 {
        lemma_split_len(s.drop_first());
    }
}

/// A separator-free sequence splits into exactly itself.
pub proof fn lemma_split_sep_free(s: Seq<char>)
    requires
        tag_ok(s),
    ensures
        spec_split(s) =~~= seq![s],
    decreases s.len(),
{
    if s.len() > 0 {
        assert(tag_ok(s.drop_first()));
        lemma_split_sep_free(s.drop_first());
        assert(seq![s[0]] + s.drop_first() =~= s);
    }
}

/// Splitting after a leading separator-free piece peels that piece off.
pub proof fn lemma_split_cons(a: Seq<char>, b: Seq<char>)
    requires
        tag_ok(a),
    ensures
        spec_split(a + seq![TAG_SEPARATOR] + b) =~~= seq![a] + spec_split(b),
    decreases a.len(),
{
    let s = a + seq![TAG_SEPARATOR] + b;
    if a.len() == 0 {
        assert(s =~= seq![TAG_SEPARATOR] + b);
        assert(s[0] == TAG_SEPARATOR);
        assert(s.drop_first() =~= b);
    } else {
        assert(s[0] == a[0]);
        assert(a[0] != TAG_SEPARATOR);
        assert(tag_ok(a.drop_first()));
        lemma_split_cons(a.drop_first(), b);
        assert(s.drop_first() =~= a.drop_first() + seq![TAG_SEPARATOR] + b);
        let rest = spec_split(s.drop_first());
        lemma_split_len(b);
        assert(rest[0] =~= a.drop_first());
        assert(seq![s[0]] + rest[0] =~= a);
        assert(rest.drop_first() =~= spec_split(b));
    }
}

/// Every piece of a split is separator-free.
pub proof fn lemma_split_all_ok(s: Seq<char>)
    ensures
        all_tags_ok(spec_split(s)),
    decreases s.len(),
{
    if s.len() == 0 {
    } else if s[0] == TAG_SEPARATOR {
        lemma_split_all_ok(s.drop_first());
        assert forall|i: int| 0 <= i < spec_split(s).len() implies tag_ok(
            #[trigger] spec_split(s)[i],
        ) by {
            if i > 0 {
                assert(spec_split(s)[i] == spec_split(s.drop_first())[i - 1]);
            }
        }
    } else {
        lemma_split_all_ok(s.drop_first());
        let rest = spec_split(s.drop_first());
        lemma_split_len(s.drop_first());
        assert(tag_ok(rest[0]));
        assert forall|i: int| 0 <= i < spec_split(s).len() implies tag_ok(
            #[trigger] spec_split(s)[i],
        ) by {
            if i == 0 {
                assert(spec_split(s)[0] =~= seq![s[0]] + rest[0]);
                assert(tag_ok(seq![s[0]] + rest[0]));
            } else {
                assert(spec_split(s)[i] == rest[i]);
            }
        }
    }
}

/// Joining one more tag onto a non-empty list appends a separator and the
/// tag.
pub proof fn lemma_join_push(tags: Seq<Seq<char>>, t: Seq<char>)
    requires
        tags.len() >= 1,
    ensures
        spec_join(tags.push(t)) == spec_join(tags) + seq![TAG_SEPARATOR] + t,
    decreases tags.len(),
{
    if tags.len() == 1 {
        assert(tags.push(t).drop_first() =~= seq![t]);
        assert(spec_join(seq![t]) == t);
        assert(tags.push(t)[0] == tags[0]);
    } else {
        lemma_join_push(tags.drop_first(), t);
        assert(tags.push(t).drop_first() =~= tags.drop_first().push(t));
        assert(spec_join(tags + seq![t]) == spec_join(tags) + seq![TAG_SEPARATOR] + t) by {
            assert(tags.push(t) =~= tags + seq![t]);
        }
    }
}

/// Round trip: decoding the encoding of any non-empty list of valid tags
/// gives the list back. (The empty list is the one exception: its encoding
/// is the empty string, which decodes to one empty tag.)
pub proof fn lemma_tag_round_trip(tags: Seq<Seq<char>>)
    requires
        tags.len() >= 1,
        all_tags_ok(tags),
    ensures
        spec_split(spec_join(tags)) == tags,
    decreases tags.len(),
{
    if tags.len() == 1 {
        assert(tag_ok(tags[0]));
        lemma_split_sep_free(tags[0]);
        assert(spec_split(spec_join(tags)) =~~= tags);
    } else {
        let rest = tags.drop_first();
        assert(all_tags_ok(rest));
        lemma_tag_round_trip(rest);
        assert(tag_ok(tags[0]));
        lemma_split_cons(tags[0], spec_join(rest));
        assert(seq![tags[0]] + rest =~= tags);
    }
}

/// Character-wise string equality.
pub fn str_eq(a: &str, b: &str) -> (r: bool)
    ensures
        r == (a@ == b@),
{
    let la = a.unicode_len();
    let lb = b.unicode_len();
    if la != lb {
        return false;
    }
    let mut i: usize = 0;
    while i < la
        invariant
            0 <= i <= la,
            la as nat == a@.len(),
            la as nat == b@.len(),
            forall|j: int| 0 <= j < i ==> a@[j] == b@[j],
        decreases la - i,
    {
        if a.get_char(i) != b.get_char(i) {
            return false;
        }
        i = i + 1;
    }
    proof {
        assert(a@ =~= b@);
    }
    true
}

/// Whether a tag contains the reserved separator.
pub fn contains_separator(tag: &str) -> (r: bool)
    ensures
        r == !tag_ok(tag@),
{
    let len = tag.unicode_len();
    let mut i: usize = 0;
    while i < len
        invariant
            0 <= i <= len,
            len as nat == tag@.len(),
            forall|j: int| 0 <= j < i ==> tag@[j] != TAG_SEPARATOR,
        decreases len - i,
    {
        if tag.get_char(i) == TAG_SEPARATOR {
            return true;
        }
        i = i + 1;
    }
    false
}

/// A list of tags; the separator is forbidden inside each tag.
#[derive(Debug)]
pub struct Tags {
    tags: Vec<String>,
}

impl View for Tags {
    type V = Seq<Seq<char>>;

    closed spec fn view(&self) -> Seq<Seq<char>> {
        strings_view(self.tags@)
    }
}

impl Tags {
    /// A well-formed tag list: no tag contains the separator.
    pub open spec fn wf(self) -> bool {
        all_tags_ok(self@)
    }

    /// A tag list from strings; rejected iff some tag holds the separator.
    pub fn new(tags: Vec<String>) -> (r: Result<Tags, ValidationError>)
        ensures
            r is Ok <==> all_tags_ok(strings_view(tags@)),
            r matches Ok(t) ==> t@ == strings_view(tags@) && t.wf(),
            r matches Err(e) ==> e == ValidationError::ForbiddenTagCharacter,
    {
        let n = tags.len();
        let mut i: usize = 0;
        while i < n
            invariant
                0 <= i <= n,
                n == tags@.len(),
                forall|j: int| 0 <= j < i ==> tag_ok(#[trigger] strings_view(tags@)[j]),
            decreases n - i,
        {
            if contains_separator(tags[i].as_str()) {
                assert(!tag_ok(strings_view(tags@)[i as int]));
                return Err(ValidationError::ForbiddenTagCharacter);
            }
            i = i + 1;
        }
        Ok(Tags { tags })
    }

    /// Append a tag; returns the tag back iff it holds the separator.
    pub fn push(&mut self, tag: String) -> (r: Result<(), String>)
        ensures
            r is Ok <==> tag_ok(tag@),
            r matches Ok(_) ==> final(self)@ == old(self)@.push(tag@),
            r matches Err(t) ==> t == tag && final(self)@ == old(self)@,
            old(self).wf() && tag_ok(tag@) ==> final(self).wf(),
    {
        if contains_separator(tag.as_str()) {
            Err(tag)
        } else {
            let ghost before = self.tags@;
            self.tags.push(tag);
            proof {
                assert(strings_view(self.tags@) =~= strings_view(before).push(tag@));
            }
            Ok(())
        }
    }

    /// Remove the first occurrence of `tag`; true iff one was there.
    pub fn remove(&mut self, tag: &str) -> (r: bool)
        ensures
            r == (exists|i: int| 0 <= i < old(self)@.len() && old(self)@[i] == tag@),
            !r ==> final(self)@ == old(self)@,
            r ==> exists|i: int|
                {
                    &&& 0 <= i < old(self)@.len()
                    &&& old(self)@[i] == tag@
                    &&& (forall|j: int| 0 <= j < i ==> old(self)@[j] != tag@)
                    &&& final(self)@ == old(self)@.remove(i)
                },
    {
        let n = self.tags.len();
        let mut i: usize = 0;
        while i < n
            invariant
                0 <= i <= n,
                n == self.tags@.len(),
                *self == *old(self),
                forall|j: int| 0 <= j < i ==> self@[j] != tag@,
            decreases n - i,
        {
            if str_eq(self.tags[i].as_str(), tag) {
                let ghost before = self.tags@;
                proof {
                    assert(old(self)@[i as int] == tag@);
                }
                self.tags.remove(i);
                proof {
                    assert(strings_view(self.tags@) =~= strings_view(before).remove(i as int));
                    assert(old(self)@.remove(i as int) == strings_view(before).remove(i as int));
                }
                return true;
            }
            i = i + 1;
        }
        false
    }

    /// Hand the tags out as plain strings.
    pub fn into_vec(self) -> (r: Vec<String>)
        ensures
            strings_view(r@) == self@,
    {
        self.tags
    }

    /// The wire encoding: the tags joined with the separator.
    pub fn encode(&self) -> (r: String)
        ensures
            r@ == spec_join(self@),
    {
        let mut out = String::new();
        let n = self.tags.len();
        if n == 0 {
            return out;
        }
        out.append(self.tags[0].as_str());
        let mut i: usize = 1;
        proof {
            assert(self@.take(1) =~= seq![self@[0]]);
        }
        while i < n
            invariant
                1 <= i <= n,
                n == self.tags@.len(),
                out@ == spec_join(self@.take(i as int)),
            decreases n - i,
        {
            proof {
                reveal_strlit("$");
                assert("$"@ =~= seq![TAG_SEPARATOR]);
                lemma_join_push(self@.take(i as int), self@[i as int]);
                assert(self@.take(i as int).push(self@[i as int]) =~= self@.take(i as int + 1));
            }
            out.append("$");
            out.append(self.tags[i].as_str());
            i = i + 1;
        }
        proof {
            assert(self@.take(n as int) =~= self@);
        }
        out
    }

    /// The wire decoding: split at every separator. Inverse of `encode` on
    /// non-empty valid tag lists.
    pub fn decode(s: &str) -> (r: Tags)
        ensures
            r@ == spec_split(s@),
            r.wf(),
    {
        let n = s.unicode_len();
        let mut result: Vec<String> = Vec::new();
        let mut start: usize = 0;
        let mut i: usize = 0;
        proof {
            assert(s@.skip(0) =~= s@);
            assert(strings_view(result@) + spec_split(s@.skip(0)) =~~= spec_split(s@));
        }
        while i < n
            invariant
                0 <= start <= i <= n,
                n as nat == s@.len(),
                spec_split(s@) =~~= strings_view(result@) + spec_split(s@.skip(start as int)),
                forall|j: int| start <= j < i ==> s@[j] != TAG_SEPARATOR,
            decreases n - i,
        {
            if s.get_char(i) == TAG_SEPARATOR {
                let piece = s.substring_char(start, i);
                let ghost before = result@;
                result.push(piece.to_owned());
                proof {
                    let a = s@.subrange(start as int, i as int);
                    let b = s@.skip(i as int + 1);
                    assert(tag_ok(a));
                    lemma_split_cons(a, b);
                    assert(s@.skip(start as int) =~= a + seq![TAG_SEPARATOR] + b);
                    assert(strings_view(result@) =~= strings_view(before).push(a));
                    assert(strings_view(before).push(a) + spec_split(b) =~= strings_view(before)
                        + (seq![a] + spec_split(b)));
                }
                start = i + 1;
            }
            i = i + 1;
        }
        let piece = s.substring_char(start, n);
        let ghost before = result@;
        result.push(piece.to_owned());
        proof {
            let a = s@.subrange(start as int, n as int);
            assert(tag_ok(a));
            lemma_split_sep_free(a);
            assert(s@.skip(start as int) =~= a);
            assert(strings_view(result@) =~= strings_view(before).push(a));
            assert(strings_view(before).push(a) =~= strings_view(before) + seq![a]);
            lemma_split_all_ok(s@);
        }
        Tags { tags: result }
    }
}

} // verus!
