use vstd::prelude::*;
use vstd::utf8::decode_utf8;
use vstd::utf8::valid_utf8;

use crate::error::DispatchError;
use crate::headers::spec_translate_fields;

verus! {

/// The dispatch response envelope's head: the transport's status verbatim,
/// and one (name, decoded value) entry per transport header entry.
#[derive(Debug)]
pub struct ResponseHead {
    pub status: u16,
    pub headers: Vec<(String, String)>,
}

/// Response-side header translation, over the transport's entries in order:
/// every value is decoded as UTF-8 text, preserving multiplicity and order;
/// the first value that is not valid UTF-8 decides the error.
pub open spec fn spec_translate_response_headers(hs: Seq<(Seq<char>, Seq<u8>)>) -> Result<
    Seq<(Seq<char>, Seq<char>)>,
    DispatchError,
>
    decreases hs.len(),
{
    if hs.len() == 0 {
        Ok(Seq::empty())
    } else if !valid_utf8(hs[0].1) {
        Err(DispatchError::HeaderDecodeError)
    } else {
        match spec_translate_response_headers(hs.drop_first()) {
            Ok(rest) => Ok(seq![(hs[0].0, decode_utf8(hs[0].1))] + rest),
            Err(e) => Err(e),
        }
    }
}

/// Relies on `str::from_utf8`: it accepts exactly valid UTF-8 and returns
/// its decoding.
#[verifier::external_body]
fn utf8_to_string(b: &[u8]) -> (r: Option<String>)
    ensures
        r is Some <==> valid_utf8(b@),
        r matches Some(s) ==> s@ == decode_utf8(b@),
{
    match core::str::from_utf8(b) {
        Ok(s) => Some(s.to_owned()),
        Err(_) => None,
    }
}

/// Translates the transport response's header entries into the envelope's
/// decoded entries, or rejects the first value that does not decode.
#[verifier::loop_isolation(false)]
pub fn translate_response_headers(headers: &Vec<(String, Vec<u8>)>) -> (r: Result<
    Vec<(String, String)>,
    DispatchError,
>)
    ensures
        r matches Ok(out) ==> spec_translate_response_headers(headers.deep_view()) == Ok::<
            Seq<(Seq<char>, Seq<char>)>,
            DispatchError,
        >(out.deep_view()),
        r matches Err(e) ==> spec_translate_response_headers(headers.deep_view()) == Err::<
            Seq<(Seq<char>, Seq<char>)>,
            DispatchError,
        >(e),
{
    let ghost hv = headers.deep_view();
    let mut out: Vec<(String, String)> = Vec::new();
    let mut i: usize = 0;
    proof {
        assert(hv.subrange(0, hv.len() as int) =~= hv);
        match spec_translate_response_headers(hv) {
            Ok(rest) => {
                assert(Seq::<(Seq<char>, Seq<char>)>::empty() + rest =~= rest);
            },
            Err(_) => {},
        }
    }
    while i < headers.len()
        invariant
            i <= headers.len(),
            hv.len() == headers.len(),
            spec_translate_response_headers(hv) == (match spec_translate_response_headers(
                hv.subrange(i as int, hv.len() as int),
            ) {
                Ok(rest) => Ok::<Seq<(Seq<char>, Seq<char>)>, DispatchError>(
                    out.deep_view() + rest,
                ),
                Err(e) => Err::<Seq<(Seq<char>, Seq<char>)>, DispatchError>(e),
            }),
        decreases headers.len() - i,
    {
        proof {
            assert(hv[i as int] == headers@[i as int].deep_view());
            assert(hv.subrange(i as int, hv.len() as int)[0] == hv[i as int]);
            assert(hv.subrange(i as int, hv.len() as int).drop_first() =~= hv.subrange(
                i + 1,
                hv.len() as int,
            ));
        }
        let field = &headers[i];
        proof {
            assert(field.0@ == hv[i as int].0);
            assert(field.1.deep_view() =~= field.1@);
            assert(hv[i as int].1 == field.1.deep_view());
        }
        let text = match utf8_to_string(field.1.as_slice()) {
            Some(s) => s,
            None => {
                return Err(DispatchError::HeaderDecodeError);
            },
        };
        let ghost pre_dv = out.deep_view();
        let entry = (field.0.clone(), text);
        out.push(entry);
        proof {
            assert(entry.deep_view() == (hv[i as int].0, decode_utf8(hv[i as int].1)));
            assert(out.deep_view() =~= pre_dv.push(
                (hv[i as int].0, decode_utf8(hv[i as int].1)),
            ));
            match spec_translate_response_headers(hv.subrange(i + 1, hv.len() as int)) {
                Ok(rest) => {
                    assert(pre_dv + (seq![(hv[i as int].0, decode_utf8(hv[i as int].1))] + rest)
                        =~= out.deep_view() + rest);
                },
                Err(_) => {},
            }
        }
        i += 1;
    }
    proof {
        assert(hv.subrange(i as int, hv.len() as int) =~= Seq::<(Seq<char>, Seq<u8>)>::empty());
        assert(out.deep_view() + Seq::<(Seq<char>, Seq<char>)>::empty() =~= out.deep_view());
    }
    Ok(out)
}

/// Translates a resolved transport response's status and header entries into
/// the dispatch response envelope's head. The status is copied verbatim.
pub fn translate_response(status: u16, headers: &Vec<(String, Vec<u8>)>) -> (r: Result<
    ResponseHead,
    DispatchError,
>)
    ensures
        r matches Ok(h) ==> h.status == status && spec_translate_response_headers(
            headers.deep_view(),
        ) == Ok::<Seq<(Seq<char>, Seq<char>)>, DispatchError>(h.headers.deep_view()),
        r matches Err(e) ==> spec_translate_response_headers(headers.deep_view()) == Err::<
            Seq<(Seq<char>, Seq<char>)>,
            DispatchError,
        >(e),
{
    match translate_response_headers(headers) {
        Ok(hs) => Ok(ResponseHead { status, headers: hs }),
        Err(e) => Err(e),
    }
}

proof fn lemma_decode_entries(entries: Seq<(Seq<char>, Seq<u8>)>)
    requires
        forall|i: int| 0 <= i < entries.len() ==> valid_utf8(#[trigger] entries[i].1),
    ensures
        spec_translate_response_headers(entries) == Ok::<
            Seq<(Seq<char>, Seq<char>)>,
            DispatchError,
        >(entries.map_values(|e: (Seq<char>, Seq<u8>)| (e.0, decode_utf8(e.1)))),
    decreases entries.len(),
{
    let f = |e: (Seq<char>, Seq<u8>)| (e.0, decode_utf8(e.1));
    if entries.len() == 0 {
        assert(entries.map_values(f) =~= Seq::<(Seq<char>, Seq<char>)>::empty());
    } else {
        let rest = entries.drop_first();
        assert forall|i: int| 0 <= i < rest.len() implies valid_utf8(#[trigger] rest[i].1) by {
            assert(rest[i] == entries[i + 1]);
        }
        lemma_decode_entries(rest);
        assert(seq![(entries[0].0, decode_utf8(entries[0].1))] + rest.map_values(f)
            =~= entries.map_values(f));
    }
}

/// Header round trip: entries that request-side translation produced, and
/// whose values are valid UTF-8, translate back into the envelope one entry
/// per transport entry — the name kept, the value decoded, multiplicity and
/// order preserved.
pub proof fn lemma_header_round_trip(
    hs: Seq<(Seq<char>, Seq<Seq<u8>>)>,
    entries: Seq<(Seq<char>, Seq<u8>)>,
)
    requires
        spec_translate_fields(hs) == Ok::<Seq<(Seq<char>, Seq<u8>)>, DispatchError>(entries),
        forall|i: int| 0 <= i < entries.len() ==> valid_utf8(#[trigger] entries[i].1),
    ensures
        spec_translate_response_headers(entries) == Ok::<
            Seq<(Seq<char>, Seq<char>)>,
            DispatchError,
        >(entries.map_values(|e: (Seq<char>, Seq<u8>)| (e.0, decode_utf8(e.1)))),
{
    lemma_decode_entries(entries);
}

} // verus!
