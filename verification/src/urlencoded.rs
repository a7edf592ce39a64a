//! Query strings in `application/x-www-form-urlencoded` form.

use vstd::prelude::*;

verus! {

/// A query string under construction: a `form_urlencoded::Serializer` that
/// writes into a string of its own, from its start and without an encoding
/// override. Its methods here are calls of the serializer's methods of the
/// same names, and their contracts are what is claimed of those.
#[verifier::external_body]
pub struct UrlEncodedQuery {
    urlencoded: form_urlencoded::Serializer<'static, String>,
}

/// The text that a query string holds so far: the string that the
/// serializer writes into.
pub uninterp spec fn query_text(query: UrlEncodedQuery) -> Seq<char>;

/// The form that a name or a value takes in a query string, as
/// `form_urlencoded::byte_serialize` gives it for the UTF-8 bytes of the
/// text: each byte written as itself, as `+` or as a percent escape.
pub uninterp spec fn form_encoded(text: Seq<char>) -> Seq<char>;

/// The text of a query string after one more entry: `&` between entries,
/// then the entry.
pub open spec fn with_entry(text: Seq<char>, entry: Seq<char>) -> Seq<char> {
    if text.len() > 0 {
        text + seq!['&'] + entry
    } else {
        entry
    }
}

/// The text of a query string after the pairs `pairs` of a name and a
/// value were appended in their order.
pub open spec fn with_pairs(text: Seq<char>, pairs: Seq<(Seq<char>, Seq<char>)>) -> Seq<char>
    decreases pairs.len(),
{
    if pairs.len() == 0 {
        text
    } else {
        with_entry(
            with_pairs(text, pairs.drop_last()),
            form_encoded(pairs.last().0) + seq!['='] + form_encoded(pairs.last().1),
        )
    }
}

/// The text of a query string after the names `names` were appended in
/// their order, each without a value.
pub open spec fn with_keys(text: Seq<char>, names: Seq<Seq<char>>) -> Seq<char>
    decreases names.len(),
{
    if names.len() == 0 {
        text
    } else {
        with_entry(with_keys(text, names.drop_last()), form_encoded(names.last()))
    }
}

/// To append two lists of pairs one after the other is to append them as
/// one list.
pub proof fn lemma_with_pairs_concat(
    text: Seq<char>,
    first: Seq<(Seq<char>, Seq<char>)>,
    second: Seq<(Seq<char>, Seq<char>)>,
)
    ensures
        with_pairs(text, first + second) == with_pairs(with_pairs(text, first), second),
    decreases second.len(),
{
    if second.len() == 0 {
        assert(first + second =~= first);
    } else {
        lemma_with_pairs_concat(text, first, second.drop_last());
        assert((first + second).drop_last() =~= first + second.drop_last());
        assert((first + second).last() == second.last());
    }
}

/// Parameters of a request that are written into its query string as
/// pairs of a name and a value.
pub trait QueryParams {
    /// The pairs of the parameters, in the order in which they are
    /// written.
    spec fn pairs(&self) -> Seq<(Seq<char>, Seq<char>)>;

    /// Appends the pairs of the parameters to `query`.
    fn append_to(&self, query: &mut UrlEncodedQuery)
        ensures
            query_text(*final(query)) == with_pairs(query_text(*old(query)), self.pairs()),
    ;
}

impl UrlEncodedQuery {
    /// The query string of the parameters `value`.
    pub fn with<P: QueryParams>(value: &P) -> (res: Result<Self, serde_urlencoded::ser::Error>)
        ensures
            res is Ok,
            query_text(res->Ok_0) == with_pairs(Seq::<char>::empty(), value.pairs()),
    {
        let mut urlencoded = Self::new();
        value.append_to(&mut urlencoded);
        Ok(urlencoded)
    }

    /// Appends the pairs of `pairs` in their order.
    pub fn extend_pairs(&mut self, pairs: &Vec<(String, String)>)
        ensures
            query_text(*final(self)) == with_pairs(
                query_text(*old(self)),
                pairs@.map_values(|pair: (String, String)| (pair.0@, pair.1@)),
            ),
    {
        let ghost views = pairs@.map_values(|pair: (String, String)| (pair.0@, pair.1@));
        let ghost start = query_text(*self);
        let mut i: usize = 0;
        while i < pairs.len()
            invariant
                i <= pairs@.len(),
                views == pairs@.map_values(|pair: (String, String)| (pair.0@, pair.1@)),
                query_text(*self) == with_pairs(start, views.subrange(0, i as int)),
            decreases pairs@.len() - i,
        {
            self.append_pair(pairs[i].0.as_str(), pairs[i].1.as_str());
            proof {
                assert(views.subrange(0, i + 1).drop_last() =~= views.subrange(0, i as int));
                assert(views.subrange(0, i + 1).last() == (pairs@[i as int].0@, pairs@[i as int].1@));
            }
            i = i + 1;
        }
        assert(views.subrange(0, i as int) =~= views);
    }

    /// Appends the names of `names` in their order, each without a value.
    pub fn extend_keys_only(&mut self, names: &Vec<String>)
        ensures
            query_text(*final(self)) == with_keys(
                query_text(*old(self)),
                names@.map_values(|name: String| name@),
            ),
    {
        let ghost views = names@.map_values(|name: String| name@);
        let ghost start = query_text(*self);
        let mut i: usize = 0;
        while i < names.len()
            invariant
                i <= names@.len(),
                views == names@.map_values(|name: String| name@),
                query_text(*self) == with_keys(start, views.subrange(0, i as int)),
            decreases names@.len() - i,
        {
            self.append_key_only(names[i].as_str());
            proof {
                assert(views.subrange(0, i + 1).drop_last() =~= views.subrange(0, i as int));
                assert(views.subrange(0, i + 1).last() == names@[i as int]@);
            }
            i = i + 1;
        }
        assert(views.subrange(0, i as int) =~= views);
    }

    /// An empty query string: `form_urlencoded::Serializer::new` on an
    /// empty string.
    #[verifier::external_body]
    pub fn new() -> (query: UrlEncodedQuery)
        ensures
            query_text(query) == Seq::<char>::empty(),
    {
        UrlEncodedQuery { urlencoded: form_urlencoded::Serializer::new(String::new()) }
    }

    /// `form_urlencoded::Serializer::append_pair`: appends `&` unless the
    /// string is empty, then the name, `=` and the value, both in their
    /// encoded form.
    #[verifier::external_body]
    pub fn append_pair(&mut self, name: &str, value: &str)
        ensures
            query_text(*final(self)) == with_entry(
                query_text(*old(self)),
                form_encoded(name@) + seq!['='] + form_encoded(value@),
            ),
    {
        self.urlencoded.append_pair(name, value);
    }

    /// `form_urlencoded::Serializer::append_key_only`: appends `&` unless
    /// the string is empty, then the name in its encoded form.
    #[verifier::external_body]
    pub fn append_key_only(&mut self, name: &str)
        ensures
            query_text(*final(self)) == with_entry(query_text(*old(self)), form_encoded(name@)),
    {
        self.urlencoded.append_key_only(name);
    }

    /// `form_urlencoded::Serializer::clear`: removes every entry.
    #[verifier::external_body]
    pub fn clear(&mut self)
        ensures
            query_text(*final(self)) == Seq::<char>::empty(),
    {
        self.urlencoded.clear();
    }

    /// `form_urlencoded::Serializer::finish`: the string that was written.
    /// It is called once, on a serializer that is then given up.
    #[verifier::external_body]
    pub fn finish(self) -> (text: String)
        ensures
            text@ == query_text(self),
    {
        let mut query = self;
        query.urlencoded.finish()
    }
}

} // verus!
