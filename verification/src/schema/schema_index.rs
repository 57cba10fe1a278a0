use vstd::prelude::*;

use crate::text::{chars_of, concat, string_of, trim, trimmed_string};

verus! {

/// What a [SchemaIndex] holds.
pub struct SchemaIndexView {
    /// The optional prefix (a correlation: table name or alias).
    pub prefix: Option<Seq<char>>,
    /// The attribute (column name or field alias).
    pub attr: Seq<char>,
}

/// Key to find a field / column position from a record / row.
///
/// Represented in a string either like "(prefix) . (attr)" or "(attr)".
#[derive(Eq, PartialEq, Ord, PartialOrd, Hash, Debug)]
pub struct SchemaIndex {
    prefix: Option<String>,
    attr: String,
}

impl View for SchemaIndex {
    type V = SchemaIndexView;

    closed spec fn view(&self) -> SchemaIndexView {
        SchemaIndexView {
            prefix: match &self.prefix {
                Some(p) => Some(p@),
                None => None,
            },
            attr: self.attr@,
        }
    }
}

impl Clone for SchemaIndex {
    fn clone(&self) -> (r: Self)
        ensures
            r == *self,
    {
        SchemaIndex {
            prefix: match &self.prefix {
                Some(p) => Some(p.clone()),
                None => None,
            },
            attr: self.attr.clone(),
        }
    }
}

/// Whether `s` has a `.` at `p`.
pub open spec fn is_dot_at(s: Seq<char>, p: int) -> bool {
    0 <= p < s.len() && s[p] == '.'
}

/// Whether `s` is a well-formed index text: at most one `.`, and no part around it that is empty or
/// blank (white space only).
pub open spec fn is_index_text(s: Seq<char>) -> bool {
    &&& forall|p: int, q: int| is_dot_at(s, p) && is_dot_at(s, q) ==> p == q
    &&& trim(s).len() > 0
    &&& forall|p: int| is_dot_at(s, p) ==> trim(s.take(p)).len() > 0 && trim(s.skip(p + 1)).len() > 0
}

/// The index that a well-formed index text stands for: each part trimmed of white space.
pub open spec fn parse_index(s: Seq<char>) -> SchemaIndexView {
    if exists|p: int| is_dot_at(s, p) {
        let p = choose|p: int| is_dot_at(s, p);
        SchemaIndexView { prefix: Some(trim(s.take(p))), attr: trim(s.skip(p + 1)) }
    } else {
        SchemaIndexView { prefix: None, attr: trim(s) }
    }
}

impl SchemaIndexView {
    /// Text of the index: "prefix.attr" or "attr".
    pub open spec fn spec_display(self) -> Seq<char> {
        match self.prefix {
            Some(p) => p + "."@ + self.attr,
            None => self.attr,
        }
    }
}

impl SchemaIndex {
    /// Text of the index: "prefix.attr" or "attr".
    pub open spec fn spec_display(self) -> Seq<char> {
        self@.spec_display()
    }

    /// Constructor.
    pub fn new(prefix: Option<String>, attr: String) -> (r: Self)
        ensures
            r@.prefix == (match prefix {
                Some(p) => Some(p@),
                None => None::<Seq<char>>,
            }),
            r@.attr == attr@,
    {
        SchemaIndex { prefix, attr }
    }

    /// Prefix part.
    pub fn prefix(&self) -> (r: Option<&str>)
        ensures
            r matches Some(p) ==> self@.prefix == Some(p@),
            r is None ==> self@.prefix is None,
    {
        match &self.prefix {
            Some(p) => Some(p.as_str()),
            None => None,
        }
    }

    /// Attribute part.
    pub fn attr(&self) -> (r: &str)
        ensures
            r@ == self@.attr,
    {
        self.attr.as_str()
    }

    /// Text of the index: "prefix.attr" or "attr".
    pub fn to_string(&self) -> (r: String)
        ensures
            r@ == self.spec_display(),
    {
        match &self.prefix {
            Some(p) => concat(concat(string_of(p.as_str()), "."), self.attr.as_str()),
            None => string_of(self.attr.as_str()),
        }
    }

    /// Parses "prefix.attr" or "attr"; white space around each part is dropped.
    ///
    /// # Panics
    ///
    /// A text with more than one `.`, or with a part that is empty or blank, is a caller's error:
    /// `requires` rules it out.
    pub fn from(s: &str) -> (r: Self)
        requires
            is_index_text(s@),
        ensures
            r@ == parse_index(s@),
    {
        let v = chars_of(s);
        let mut p: usize = 0;
        while p < v.len() && v[p] != '.'
            invariant
                v@ == s@,
                p <= v@.len(),
                forall|k: int| 0 <= k < p ==> !is_dot_at(s@, k),
            decreases v@.len() - p,
        {
            p = p + 1;
        }
        if p < v.len() {
            assert(is_dot_at(s@, p as int));
            let ghost q = choose|q: int| is_dot_at(s@, q);
            assert(q == p);
            assert(v@.subrange(0, p as int) =~= s@.take(p as int));
            assert(v@.subrange(p + 1, v@.len() as int) =~= s@.skip(p + 1));
            let prefix = trimmed_string(&v, 0, p);
            let attr = trimmed_string(&v, p + 1, v.len());
            SchemaIndex { prefix: Some(prefix), attr }
        } else {
            assert(!exists|q: int| is_dot_at(s@, q));
            assert(v@.subrange(0, v@.len() as int) =~= s@);
            SchemaIndex { prefix: None, attr: trimmed_string(&v, 0, v.len()) }
        }
    }
}

} // verus!
