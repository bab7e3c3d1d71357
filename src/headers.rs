use vstd::prelude::*;

use crate::config::SecurityConfig;
use crate::text::str_eq;

verus! {

/// One response header; names are kept in lower case, as HTTP libraries normalise them.
#[derive(Debug, Clone)]
pub struct Header {
    pub name: String,
    pub value: String,
}

impl View for Header {
    type V = (Seq<char>, Seq<char>);

    open spec fn view(&self) -> (Seq<char>, Seq<char>) {
        (self.name@, self.value@)
    }
}

/// The headers of a response as name/value pairs, in order.
pub open spec fn header_views(hs: Seq<Header>) -> Seq<(Seq<char>, Seq<char>)> {
    hs.map_values(|h: Header| h@)
}

pub open spec fn hsts_name() -> Seq<char> {
    "strict-transport-security"@
}

pub open spec fn hsts_value() -> Seq<char> {
    "max-age=31536000; includeSubDomains"@
}

pub open spec fn csp_name() -> Seq<char> {
    "content-security-policy"@
}

pub open spec fn csp_value() -> Seq<char> {
    "default-src 'self'"@
}

/// Whether some header is called `name`.
pub open spec fn has_header(hs: Seq<(Seq<char>, Seq<char>)>, name: Seq<char>) -> bool {
    exists|i: int| 0 <= i < hs.len() && #[trigger] hs[i].0 == name
}

/// Holds of a header not called `name`.
pub open spec fn not_named(name: Seq<char>) -> spec_fn((Seq<char>, Seq<char>)) -> bool {
    |h: (Seq<char>, Seq<char>)| h.0 != name
}

/// Headers not called `name`, in order.
pub open spec fn without(hs: Seq<(Seq<char>, Seq<char>)>, name: Seq<char>) -> Seq<
    (Seq<char>, Seq<char>),
> {
    hs.filter(not_named(name))
}

/// Sets header `name` to `value`, overriding whatever the response held under that name.
pub open spec fn with_header(
    hs: Seq<(Seq<char>, Seq<char>)>,
    name: Seq<char>,
    value: Seq<char>,
) -> Seq<(Seq<char>, Seq<char>)> {
    without(hs, name).push((name, value))
}

/// A response's headers once the configured security headers are set.
pub open spec fn with_security_headers(
    hs: Seq<(Seq<char>, Seq<char>)>,
    cfg: SecurityConfig,
) -> Seq<(Seq<char>, Seq<char>)> {
    let a = if cfg.enable_hsts {
        with_header(hs, hsts_name(), hsts_value())
    } else {
        hs
    };
    if cfg.enable_csp {
        with_header(a, csp_name(), csp_value())
    } else {
        a
    }
}

/// Sets header `name` to `value` on a response, dropping any earlier value of it.
pub fn set_header(headers: &mut Vec<Header>, name: &str, value: &str)
    ensures
        header_views(final(headers)@) == with_header(header_views(old(headers)@), name@, value@),
{
    let ghost hv = header_views(headers@);
    let ghost keep = not_named(name@);
    let mut out: Vec<Header> = Vec::new();
    let mut i: usize = 0;
    while i < headers.len()
        invariant
            i <= headers@.len(),
            hv == header_views(headers@),
            keep == not_named(name@),
            header_views(out@) == hv.take(i as int).filter(keep),
        decreases headers@.len() - i,
    {
        let h = &headers[i];
        proof {
            assert(hv.take(i + 1) =~= hv.take(i as int).push(hv[i as int]));
            hv.take(i as int).lemma_filter_push(hv[i as int], keep);
        }
        if !str_eq(h.name.as_str(), name) {
            let copy = Header { name: h.name.clone(), value: h.value.clone() };
            let ghost before = out@;
            out.push(copy);
            proof {
                assert(header_views(out@) =~= header_views(before).push(copy@));
            }
        }
        i = i + 1;
    }
    let ghost before = out@;
    out.push(Header { name: String::from_str(name), value: String::from_str(value) });
    proof {
        assert(hv.take(hv.len() as int) =~= hv);
        assert(header_views(out@) =~= header_views(before).push((name@, value@)));
    }
    *headers = out;
}

/// Sets the security headers that the configuration enables, each overriding any earlier
/// value; with both disabled the headers are left as they were.
pub fn apply_security_headers(headers: &mut Vec<Header>, cfg: &SecurityConfig)
    ensures
        header_views(final(headers)@) == with_security_headers(header_views(old(headers)@), *cfg),
{
    proof {
        reveal_strlit("strict-transport-security");
        reveal_strlit("max-age=31536000; includeSubDomains");
        reveal_strlit("content-security-policy");
        reveal_strlit("default-src 'self'");
    }
    if cfg.enable_hsts {
        set_header(headers, "strict-transport-security", "max-age=31536000; includeSubDomains");
    }
    if cfg.enable_csp {
        set_header(headers, "content-security-policy", "default-src 'self'");
    }
}

/// With HSTS enabled every response carries `Strict-Transport-Security`; with it disabled no
/// response that did not already hold the header gains it.
pub proof fn hsts_follows_config(hs: Seq<(Seq<char>, Seq<char>)>, cfg: SecurityConfig)
    ensures
        cfg.enable_hsts ==> has_header(with_security_headers(hs, cfg), hsts_name()),
        !cfg.enable_hsts && !has_header(hs, hsts_name()) ==> !has_header(
            with_security_headers(hs, cfg),
            hsts_name(),
        ),
{
    broadcast use vstd::seq_lib::group_filter_ensures;

    reveal_strlit("strict-transport-security");
    reveal_strlit("content-security-policy");
    assert(hsts_name().len() != csp_name().len());
    let keep_csp = not_named(csp_name());
    if cfg.enable_hsts {
        let w = without(hs, hsts_name());
        let a = with_header(hs, hsts_name(), hsts_value());
        let last = (hsts_name(), hsts_value());
        assert(a[a.len() - 1].0 == hsts_name());
        if cfg.enable_csp {
            let b = with_header(a, csp_name(), csp_value());
            w.lemma_filter_push(last, keep_csp);
            let f = w.filter(keep_csp);
            assert(b[f.len() as int].0 == hsts_name());
        }
    } else if !has_header(hs, hsts_name()) && cfg.enable_csp {
        let b = with_header(hs, csp_name(), csp_value());
        let f = hs.filter(keep_csp);
        assert forall|i: int| 0 <= i < b.len() implies #[trigger] b[i].0 != hsts_name() by {
            if i < f.len() {
                assert(f.contains(f[i]));
                hs.lemma_filter_contains_rev(keep_csp, f[i]);
                let j = choose|j: int| 0 <= j < hs.len() && hs[j] == f[i];
                assert(hs[j].0 == f[i].0);
            }
        }
    }
}

} // verus!
