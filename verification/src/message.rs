//! Plain models of the HTTP response head the pipeline decides about.

use vstd::prelude::*;

use crate::text::str_eq;

verus! {

/// One response header field.
#[derive(Debug)]
pub struct HeaderField {
    pub name: String,
    pub value: String,
}

/// Mathematical image of a header field.
pub ghost struct HeaderView {
    pub name: Seq<char>,
    pub value: Seq<char>,
}

impl View for HeaderField {
    type V = HeaderView;

    open spec fn view(&self) -> HeaderView {
        HeaderView { name: self.name@, value: self.value@ }
    }
}

impl DeepView for HeaderField {
    type V = HeaderView;

    open spec fn deep_view(&self) -> HeaderView {
        self.view()
    }
}

impl Clone for HeaderField {
    /// A clone has the same mathematical image as the original.
    fn clone(&self) -> (res: Self)
        ensures
            res@ == self@,
    {
        HeaderField { name: self.name.clone(), value: self.value.clone() }
    }
}

/// A response head: the status code and the response headers, in order.
#[derive(Debug)]
pub struct ResponseHead {
    pub status: u16,
    pub headers: Vec<HeaderField>,
}

/// Mathematical image of a response head.
pub ghost struct ResponseView {
    pub status: u16,
    pub headers: Seq<HeaderView>,
}

impl View for ResponseHead {
    type V = ResponseView;

    open spec fn view(&self) -> ResponseView {
        ResponseView { status: self.status, headers: self.headers.deep_view() }
    }
}

/// The headers with every field of the given name removed.
pub open spec fn remove_header(hs: Seq<HeaderView>, name: Seq<char>) -> Seq<HeaderView>
    decreases hs.len(),
{
    if hs.len() == 0 {
        hs
    } else {
        let rest = remove_header(hs.drop_first(), name);
        if hs[0].name == name {
            rest
        } else {
            seq![hs[0]] + rest
        }
    }
}

/// The headers after setting a field: previous fields of that name are
/// removed and the new field is appended, as an insertion into a header
/// map behaves.
pub open spec fn set_header(hs: Seq<HeaderView>, name: Seq<char>, value: Seq<char>) -> Seq<
    HeaderView,
> {
    remove_header(hs, name).push(HeaderView { name, value })
}

/// The value of the most recently set field of the given name, if any.
pub open spec fn header_value(hs: Seq<HeaderView>, name: Seq<char>) -> Option<Seq<char>>
    decreases hs.len(),
{
    if hs.len() == 0 {
        None
    } else if hs.last().name == name {
        Some(hs.last().value)
    } else {
        header_value(hs.drop_last(), name)
    }
}

/// A header that was just set reads back with the value it was set to.
pub proof fn lemma_set_header_reads_back(hs: Seq<HeaderView>, name: Seq<char>, value: Seq<char>)
    ensures
        header_value(set_header(hs, name, value), name) == Some(value),
{
    assert(set_header(hs, name, value).last() == (HeaderView { name, value }));
}

proof fn lemma_remove_header_snoc(hs: Seq<HeaderView>, h: HeaderView, name: Seq<char>)
    ensures
        remove_header(hs.push(h), name) == if h.name == name {
            remove_header(hs, name)
        } else {
            remove_header(hs, name).push(h)
        },
    decreases hs.len(),
{
    reveal_with_fuel(remove_header, 3);
    if hs.len() == 0 {
        assert(hs.push(h)[0] == h);
        assert(hs.push(h).drop_first() =~= Seq::<HeaderView>::empty());
        assert(hs =~= Seq::<HeaderView>::empty());
        if h.name == name {
        } else {
            assert(remove_header(hs.push(h), name) =~= remove_header(hs, name).push(h));
        }
    } else {
        assert(hs.push(h)[0] == hs[0]);
        assert(hs.push(h).drop_first() =~= hs.drop_first().push(h));
        lemma_remove_header_snoc(hs.drop_first(), h, name);
        if h.name == name {
        } else if hs[0].name == name {
        } else {
            assert(remove_header(hs.push(h), name) =~= remove_header(hs, name).push(h));
        }
    }
}

impl ResponseHead {
    /// Sets a response header: removes previous fields of that name and
    /// appends the new field. The status is untouched.
    pub fn set_header(&mut self, name: &str, value: &str)
        ensures
            final(self)@.status == old(self)@.status,
            final(self)@.headers == set_header(old(self)@.headers, name@, value@),
    {
        let ghost orig = old(self)@.headers;
        let mut kept: Vec<HeaderField> = Vec::new();
        assert(kept.deep_view() =~= remove_header(orig.take(0), name@));
        let mut i: usize = 0;
        while i < self.headers.len()
            invariant
                self@ == old(self)@,
                orig == self@.headers,
                i <= self.headers.len(),
                kept.deep_view() == remove_header(orig.take(i as int), name@),
            decreases self.headers.len() - i,
        {
            proof {
                assert(orig[i as int] == self.headers@[i as int].deep_view());
            }
            let ghost kept_before = kept.deep_view();
            if !str_eq(self.headers[i].name.as_str(), name) {
                kept.push(self.headers[i].clone());
                assert(kept.deep_view() =~= kept_before.push(orig[i as int]));
            }
            proof {
                lemma_remove_header_snoc(orig.take(i as int), orig[i as int], name@);
                assert(orig.take(i as int).push(orig[i as int]) =~= orig.take(i as int + 1));
            }
            i += 1;
        }
        proof {
            assert(orig.take(self.headers@.len() as int) =~= orig);
        }
        let ghost removed = kept.deep_view();
        kept.push(HeaderField { name: String::from_str(name), value: String::from_str(value) });
        assert(kept.deep_view() =~= removed.push(HeaderView { name: name@, value: value@ }));
        self.headers = kept;
    }
}

} // verus!
