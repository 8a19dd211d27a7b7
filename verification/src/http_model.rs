//! The slice of an HTTP exchange that the pipeline reads and writes: the
//! request method and path, the response status and body, and the headers the
//! stages stamp. A transport converts between these values and its own
//! request and response types.

use vstd::prelude::*;

verus! {

/// One HTTP header: a name and a value.
#[derive(Debug, Clone)]
pub struct Header {
    pub name: String,
    pub value: String,
}

/// What the pipeline sees of an inbound request.
#[derive(Debug)]
pub struct HttpRequest {
    pub method: String,
    pub path: String,
    pub headers: Vec<Header>,
}

/// What the pipeline sees of an outbound response.
#[derive(Debug)]
pub struct HttpResponse {
    pub status: u16,
    pub body: String,
    pub headers: Vec<Header>,
}

/// Status code of an admission rejection.
pub const TOO_MANY_REQUESTS: u16 = 429;

/// Status code of an internal failure, such as an exhausted entropy source.
pub const INTERNAL_SERVER_ERROR: u16 = 500;

/// The name of the correlation header, as a specification value.
pub open spec fn request_id_header() -> Seq<char> {
    "x-request-id"@
}

/// The name of the correlation header stamped on requests and responses.
pub fn request_id_header_name() -> (r: &'static str)
    ensures
        r@ == request_id_header(),
{
    "x-request-id"
}

/// The value of the first header named `name`, if any.
pub open spec fn spec_header_value(hs: Seq<Header>, name: Seq<char>) -> Option<Seq<char>>
    decreases hs.len(),
{
    if hs.len() == 0 {
        None
    } else if hs[0].name@ == name {
        Some(hs[0].value@)
    } else {
        spec_header_value(hs.drop_first(), name)
    }
}

/// A lookup lands on position `i` when `i` holds the name and no earlier
/// position does.
proof fn lemma_header_value_first_match(hs: Seq<Header>, name: Seq<char>, i: int)
    requires
        0 <= i < hs.len(),
        forall|j: int| 0 <= j < i ==> hs[j].name@ != name,
        hs[i].name@ == name,
    ensures
        spec_header_value(hs, name) == Some(hs[i].value@),
    decreases i,
{
    if i > 0 {
        lemma_header_value_first_match(hs.drop_first(), name, i - 1);
    }
}

/// Replacing position `i` with a header of the same name leaves lookups of
/// every other name unchanged.
proof fn lemma_header_update_other(hs: Seq<Header>, i: int, h: Header, name2: Seq<char>)
    requires
        0 <= i < hs.len(),
        h.name@ == hs[i].name@,
        h.name@ != name2,
    ensures
        spec_header_value(hs.update(i, h), name2) == spec_header_value(hs, name2),
    decreases i,
{
    let hs2 = hs.update(i, h);
    if i == 0 {
        assert(hs2.drop_first() =~= hs.drop_first());
    } else {
        assert(hs2[0] == hs[0]);
        if hs[0].name@ != name2 {
            assert(hs2.drop_first() =~= hs.drop_first().update(i - 1, h));
            lemma_header_update_other(hs.drop_first(), i - 1, h, name2);
        }
    }
}

/// Appending a header whose name has no earlier match makes it the one a
/// lookup of that name finds, and leaves every other name unchanged.
proof fn lemma_header_push(hs: Seq<Header>, h: Header, name2: Seq<char>)
    requires
        forall|j: int| 0 <= j < hs.len() ==> hs[j].name@ != h.name@,
    ensures
        spec_header_value(hs.push(h), h.name@) == Some(h.value@),
        name2 != h.name@ ==> spec_header_value(hs.push(h), name2) == spec_header_value(
            hs,
            name2,
        ),
    decreases hs.len(),
{
    if hs.len() == 0 {
        assert(hs.push(h)[0] == h);
        assert(hs.push(h).drop_first() =~= Seq::<Header>::empty());
    } else {
        assert(hs.push(h)[0] == hs[0]);
        assert(hs.push(h).drop_first() =~= hs.drop_first().push(h));
        lemma_header_push(hs.drop_first(), h, name2);
    }
}

/// Sets the header `name` to `value`: replaces the first header of that name,
/// or appends one when none is there. Headers of every other name read back
/// as before.
pub fn set_header(headers: &mut Vec<Header>, name: &str, value: String)
    ensures
        spec_header_value(final(headers)@, name@) == Some(value@),
        forall|n2: Seq<char>|
            n2 != name@ ==> #[trigger] spec_header_value(final(headers)@, n2)
                == spec_header_value(old(headers)@, n2),
        spec_header_value(old(headers)@, name@) is Some ==> final(headers)@.len() == old(
            headers,
        )@.len(),
        spec_header_value(old(headers)@, name@) is None ==> final(headers)@.len() == old(
            headers,
        )@.len() + 1,
{
    let name_key = name.to_string();
    let mut i: usize = 0;
    while i < headers.len()
        invariant
            0 <= i <= headers@.len(),
            headers@ == old(headers)@,
            name_key@ == name@,
            forall|j: int| 0 <= j < i ==> old(headers)@[j].name@ != name@,
        decreases headers@.len() - i,
    {
        if headers[i].name == name_key {
            let replacement = Header { name: headers[i].name.clone(), value };
            proof {
                lemma_header_value_first_match(old(headers)@, name@, i as int);
                lemma_header_value_first_match(
                    old(headers)@.update(i as int, replacement),
                    name@,
                    i as int,
                );
                assert forall|n2: Seq<char>| n2 != name@ implies #[trigger] spec_header_value(
                    old(headers)@.update(i as int, replacement),
                    n2,
                ) == spec_header_value(old(headers)@, n2) by {
                    lemma_header_update_other(old(headers)@, i as int, replacement, n2);
                }
            }
            headers[i] = replacement;
            return ;
        }
        i = i + 1;
    }
    let appended = Header { name: name_key, value };
    proof {
        lemma_header_value_none(old(headers)@, name@);
        assert forall|n2: Seq<char>| n2 != name@ implies #[trigger] spec_header_value(
            old(headers)@.push(appended),
            n2,
        ) == spec_header_value(old(headers)@, n2) by {
            lemma_header_push(old(headers)@, appended, n2);
        }
        lemma_header_push(old(headers)@, appended, name@);
    }
    headers.push(appended);
}

/// Reads the header `name`: the value the pipeline's own lookup order gives.
pub fn get_header(headers: &Vec<Header>, name: &str) -> (r: Option<String>)
    ensures
        match r {
            Some(v) => spec_header_value(headers@, name@) == Some(v@),
            None => spec_header_value(headers@, name@) is None,
        },
{
    let name_key = name.to_string();
    let mut i: usize = 0;
    while i < headers.len()
        invariant
            0 <= i <= headers@.len(),
            name_key@ == name@,
            forall|j: int| 0 <= j < i ==> headers@[j].name@ != name@,
        decreases headers@.len() - i,
    {
        if headers[i].name == name_key {
            proof {
                lemma_header_value_first_match(headers@, name@, i as int);
            }
            return Some(headers[i].value.clone());
        }
        i = i + 1;
    }
    proof {
        lemma_header_value_none(headers@, name@);
    }
    None
}

/// A lookup of a name that no position holds finds nothing.
proof fn lemma_header_value_none(hs: Seq<Header>, name: Seq<char>)
    requires
        forall|j: int| 0 <= j < hs.len() ==> hs[j].name@ != name,
    ensures
        spec_header_value(hs, name) is None,
    decreases hs.len(),
{
    if hs.len() > 0 {
        lemma_header_value_none(hs.drop_first(), name);
    }
}

} // verus!
