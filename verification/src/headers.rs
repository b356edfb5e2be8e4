use vstd::prelude::*;

use crate::error::DispatchError;

verus! {

/// What `http`'s header-name parsing returns for given characters: `Some`
/// with the canonical (lowercased) name when the characters are valid HTTP
/// header-name syntax, `None` otherwise. The result is a function of the
/// characters alone.
pub uninterp spec fn parsed_header_name(s: Seq<char>) -> Option<Seq<char>>;

/// A byte the transport accepts inside a header value: horizontal tab, or
/// any byte from 32 on except 127.
pub open spec fn valid_header_value_byte(b: u8) -> bool {
    b == 9 || (32 <= b && b != 127)
}

/// Bytes that parse as a valid HTTP header value.
pub open spec fn header_value_ok(b: Seq<u8>) -> bool {
    forall|i: int| 0 <= i < b.len() ==> valid_header_value_byte(#[trigger] b[i])
}

pub open spec fn all_values_ok(vs: Seq<Seq<u8>>) -> bool {
    forall|i: int| 0 <= i < vs.len() ==> header_value_ok(#[trigger] vs[i])
}

/// The entries one header field contributes to the transport's header map:
/// one (name, value) entry per value, in order, under the canonical name.
pub open spec fn spec_field_entries(name: Seq<char>, vs: Seq<Seq<u8>>) -> Seq<
    (Seq<char>, Seq<u8>),
> {
    vs.map_values(|v: Seq<u8>| (name, v))
}

/// Request-side header translation, over the descriptor's multimap in order:
/// every name is parsed into its canonical form and every value is checked,
/// appending one entry per value and preserving duplicate-header order; the
/// first field with an unparsable name or value decides the error.
pub open spec fn spec_translate_fields(hs: Seq<(Seq<char>, Seq<Seq<u8>>)>) -> Result<
    Seq<(Seq<char>, Seq<u8>)>,
    DispatchError,
>
    decreases hs.len(),
{
    if hs.len() == 0 {
        Ok(Seq::empty())
    } else {
        match parsed_header_name(hs[0].0) {
            None => Err(DispatchError::InvalidHeaderName),
            Some(canon) => if !all_values_ok(hs[0].1) {
                Err(DispatchError::InvalidHeaderValue)
            } else {
                match spec_translate_fields(hs.drop_first()) {
                    Ok(rest) => Ok(spec_field_entries(canon, hs[0].1) + rest),
                    Err(e) => Err(e),
                }
            },
        }
    }
}

/// Relies on `http::header::HeaderName`'s `FromStr` parsing: it succeeds
/// exactly for valid header-name syntax and returns the canonical lowercased
/// name, a function of the input characters alone.
#[verifier::external_body]
fn parse_header_name(s: &str) -> (r: Option<String>)
    ensures
        r is Some <==> parsed_header_name(s@) is Some,
        r matches Some(n) ==> parsed_header_name(s@) == Some(n@),
{
    match s.parse::<http::header::HeaderName>() {
        Ok(name) => Some(name.as_str().to_owned()),
        Err(_) => None,
    }
}

/// Relies on `http::header::HeaderValue::from_bytes`: it accepts exactly the
/// byte sequences whose bytes are all valid header-value bytes.
#[verifier::external_body]
fn check_header_value(b: &[u8]) -> (r: bool)
    ensures
        r == header_value_ok(b@),
{
    http::header::HeaderValue::from_bytes(b).is_ok()
}

/// Translates the descriptor's header multimap into the transport request's
/// header entries, or rejects the first unsupported header.
#[verifier::loop_isolation(false)]
pub fn translate_headers(headers: &Vec<(String, Vec<Vec<u8>>)>) -> (r: Result<
    Vec<(String, Vec<u8>)>,
    DispatchError,
>)
    ensures
        r matches Ok(out) ==> spec_translate_fields(headers.deep_view()) == Ok::<
            Seq<(Seq<char>, Seq<u8>)>,
            DispatchError,
        >(out.deep_view()),
        r matches Err(e) ==> spec_translate_fields(headers.deep_view()) == Err::<
            Seq<(Seq<char>, Seq<u8>)>,
            DispatchError,
        >(e),
{
    let ghost hv = headers.deep_view();
    let mut out: Vec<(String, Vec<u8>)> = Vec::new();
    let mut i: usize = 0;
    proof {
        assert(hv.subrange(0, hv.len() as int) =~= hv);
        match spec_translate_fields(hv) {
            Ok(rest) => {
                assert(Seq::<(Seq<char>, Seq<u8>)>::empty() + rest =~= rest);
            },
            Err(_) => {},
        }
    }
    while i < headers.len()
        invariant
            i <= headers.len(),
            hv == headers.deep_view(),
            hv.len() == headers.len(),
            spec_translate_fields(hv) == (match spec_translate_fields(
                hv.subrange(i as int, hv.len() as int),
            ) {
                Ok(rest) => Ok::<Seq<(Seq<char>, Seq<u8>)>, DispatchError>(out.deep_view() + rest),
                Err(e) => Err::<Seq<(Seq<char>, Seq<u8>)>, DispatchError>(e),
            }),
        decreases headers.len() - i,
    {
        proof {
            assert(hv[i as int] == headers@[i as int].deep_view());
            assert(hv.subrange(i as int, hv.len() as int)[0] == hv[i as int]);
            assert(hv.subrange(i as int, hv.len() as int).drop_first() =~= hv.subrange(
                i + 1,
                hv.len() as int,
            ));
        }
        let field = &headers[i];
        proof {
            assert(field.0@ == hv[i as int].0);
            assert(field.1.deep_view() == hv[i as int].1);
        }
        let canon = match parse_header_name(field.0.as_str()) {
            Some(n) => n,
            None => {
                return Err(DispatchError::InvalidHeaderName);
            },
        };
        let ghost out_before = out.deep_view();
        let ghost vs = field.1.deep_view();
        let mut j: usize = 0;
        while j < field.1.len()
            invariant
                j <= field.1.len(),
                vs == field.1.deep_view(),
                vs.len() == field.1.len(),
                parsed_header_name(hv[i as int].0) == Some(canon@),
                vs == hv[i as int].1,
                hv == headers.deep_view(),
                i < headers.len(),
                field == headers@[i as int],
                forall|k: int| 0 <= k < j ==> header_value_ok(#[trigger] vs[k]),
                out.deep_view() == out_before + spec_field_entries(
                    canon@,
                    vs.subrange(0, j as int),
                ),
            decreases field.1.len() - j,
        {
            proof {
                assert(vs[j as int] == field.1@[j as int]@);
            }
            if !check_header_value(field.1[j].as_slice()) {
                proof {
                    assert(!header_value_ok(vs[j as int]));
                    assert(!all_values_ok(hv[i as int].1));
                }
                return Err(DispatchError::InvalidHeaderValue);
            }
            let value_copy = crate::body::copy_bytes(field.1[j].as_slice());
            proof {
                assert(value_copy.deep_view() =~= vs[j as int]);
            }
            let entry = (canon.clone(), value_copy);
            let ghost pre_v = out@;
            let ghost pre_dv = out.deep_view();
            out.push(entry);
            proof {
                assert(entry.deep_view() == (canon@, vs[j as int]));
                let prev = spec_field_entries(canon@, vs.subrange(0, j as int));
                let grown = spec_field_entries(canon@, vs.subrange(0, j + 1));
                let target = out_before + grown;
                assert(out.deep_view().len() == target.len());
                assert forall|k: int| 0 <= k < target.len() implies out.deep_view()[k]
                    == target[k] by {
                    assert(out.deep_view()[k] == out@[k].deep_view());
                    if k < pre_v.len() {
                        assert(out@[k] == pre_v[k]);
                        assert(pre_dv[k] == pre_v[k].deep_view());
                        assert(pre_dv[k] == (out_before + prev)[k]);
                        if k >= out_before.len() {
                            assert(prev[k - out_before.len()] == (
                            canon@,
                            vs.subrange(0, j as int)[k - out_before.len()],
                            ));
                            assert(grown[k - out_before.len()] == (
                            canon@,
                            vs.subrange(0, j + 1)[k - out_before.len()],
                            ));
                        }
                    } else {
                        assert(out@[k] == entry);
                        assert(grown[j as int] == (canon@, vs.subrange(0, j + 1)[j as int]));
                    }
                }
                assert(out.deep_view() =~= target);
            }
            j += 1;
        }
        proof {
            assert(vs.subrange(0, vs.len() as int) =~= vs);
            assert(all_values_ok(hv[i as int].1));
            match spec_translate_fields(hv.subrange(i + 1, hv.len() as int)) {
                Ok(rest) => {
                    assert(out_before + (spec_field_entries(canon@, hv[i as int].1) + rest)
                        =~~= out.deep_view() + rest);
                },
                Err(_) => {},
            }
        }
        i += 1;
    }
    proof {
        assert(hv.subrange(i as int, hv.len() as int) =~= Seq::<(Seq<char>, Seq<Seq<u8>>)>::empty());
        assert(out.deep_view() + Seq::<(Seq<char>, Seq<u8>)>::empty() =~= out.deep_view());
    }
    Ok(out)
}

} // verus!
