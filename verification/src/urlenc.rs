use vstd::prelude::*;
use vstd::string::StrSliceExecFns;
use vstd::string::StringExecFns;

verus! {

/// The characters a query value may carry unencoded (RFC 3986 unreserved set).
pub open spec fn is_unreserved(c: char) -> bool {
    ('A' <= c && c <= 'Z') || ('a' <= c && c <= 'z') || ('0' <= c && c <= '9') || c == '-' || c
        == '.' || c == '_' || c == '~'
}

pub open spec fn hex_digits() -> Seq<char> {
    "0123456789ABCDEF"@
}

pub open spec fn hex_digit(v: int) -> char
    recommends
        0 <= v < 16,
{
    hex_digits()[v]
}

/// Percent-encoding of one ASCII character.
pub open spec fn pct_char(c: char) -> Seq<char>
    recommends
        c <= '\u{7f}',
{
    if is_unreserved(c) {
        seq![c]
    } else {
        seq!['%', hex_digit(c as int / 16), hex_digit(c as int % 16)]
    }
}

/// Percent-encoding of an ASCII character sequence: unreserved characters are
/// kept, every other one becomes a `%` escape of its code.
pub open spec fn pct_encoding(s: Seq<char>) -> Seq<char>
    decreases s.len(),
{
    if s.len() == 0 {
        Seq::empty()
    } else {
        pct_char(s[0]) + pct_encoding(s.skip(1))
    }
}

fn hex_char_at(v: u8) -> (c: char)
    requires
        v < 16,
    ensures
        c == hex_digit(v as int),
{
    let digits: &str = "0123456789ABCDEF";
    proof {
        reveal_strlit("0123456789ABCDEF");
        assert(digits@ == hex_digits());
    }
    digits.get_char(v as usize)
}

/// Appends the percent-encoding of `s` to `out`.
pub fn percent_encode_into(out: &mut String, s: &str)
    requires
        vstd::utf8::is_ascii_chars(s@),
    ensures
        final(out)@ == old(out)@ + pct_encoding(s@),
{
    let n = s.unicode_len();
    let mut i: usize = 0;
    proof {
        assert(s@.skip(0) =~= s@);
        assert(old(out)@ + pct_encoding(s@) =~= out@ + pct_encoding(s@.skip(0)));
    }
    while i < n
        invariant
            i <= n,
            n == s@.len(),
            vstd::utf8::is_ascii_chars(s@),
            old(out)@ + pct_encoding(s@) == out@ + pct_encoding(s@.skip(i as int)),
        decreases n - i,
    {
        let c = s.get_char(i);
        proof {
            assert('\0' <= s@[i as int] <= '\u{7f}');
            let tail = s@.skip(i as int);
            assert(tail.len() > 0);
            assert(tail[0] == s@[i as int]);
            assert(tail.skip(1) =~= s@.skip(i + 1));
            assert(pct_encoding(tail) == pct_char(s@[i as int]) + pct_encoding(s@.skip(i + 1)));
        }
        if ('A' <= c && c <= 'Z') || ('a' <= c && c <= 'z') || ('0' <= c && c <= '9') || c == '-'
            || c == '.' || c == '_' || c == '~' {
            crate::strutil::push_char(out, c);
            proof {
                assert(old(out)@ + pct_encoding(s@) =~= out@ + pct_encoding(s@.skip(i + 1)));
            }
        } else {
            let code = c as u32;
            let hi = (code / 16) as u8;
            let lo = (code % 16) as u8;
            crate::strutil::push_char(out, '%');
            let h = hex_char_at(hi);
            crate::strutil::push_char(out, h);
            let l = hex_char_at(lo);
            crate::strutil::push_char(out, l);
            proof {
                assert(old(out)@ + pct_encoding(s@) =~= out@ + pct_encoding(s@.skip(i + 1)));
            }
        }
        i = i + 1;
    }
    proof {
        assert(s@.skip(n as int) =~= Seq::<char>::empty());
        assert(out@ + Seq::<char>::empty() =~= out@);
    }
}


/// The authorization-endpoint redirect: the configured endpoint with the
/// query parameters of the authorization-code + PKCE request.  The state and
/// challenge a URI carries are exactly the ones stored for the session that
/// the URI was built for.
pub open spec fn authorization_uri_spec(
    cfg: crate::config::ClientConfigView,
    state: Seq<char>,
    challenge: Seq<char>,
) -> Seq<char> {
    cfg.auth_endpoint + "?client_id="@ + pct_encoding(cfg.client_id)
        + "&response_type=code&redirect_uri="@ + pct_encoding(cfg.redirect_uri) + "&state="@
        + pct_encoding(state) + "&code_challenge="@ + pct_encoding(challenge)
        + "&code_challenge_method=S256"@ + match cfg.scope {
        Some(sc) => "&scope="@ + pct_encoding(sc),
        None => Seq::<char>::empty(),
    }
}

/// Builds the authorization-endpoint URI for a state token and a challenge.
pub fn build_authorization_uri(config: &crate::config::ClientConfig, state: &str, challenge: &str)
    -> (r: String)
    requires
        config.wf(),
        vstd::utf8::is_ascii_chars(state@),
        vstd::utf8::is_ascii_chars(challenge@),
    ensures
        r@ == authorization_uri_spec(config@, state@, challenge@),
{
    let mut out = String::new();
    out.append(config.auth_endpoint.as_str());
    out.append("?client_id=");
    percent_encode_into(&mut out, config.client_id.as_str());
    out.append("&response_type=code&redirect_uri=");
    percent_encode_into(&mut out, config.redirect_uri.as_str());
    out.append("&state=");
    percent_encode_into(&mut out, state);
    out.append("&code_challenge=");
    percent_encode_into(&mut out, challenge);
    out.append("&code_challenge_method=S256");
    match &config.scope {
        Some(sc) => {
            out.append("&scope=");
            percent_encode_into(&mut out, sc.as_str());
        },
        None => {},
    }
    proof {
        assert(out@ =~= authorization_uri_spec(config@, state@, challenge@));
    }
    out
}

} // verus!
