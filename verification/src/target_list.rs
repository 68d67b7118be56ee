//! The target list format of the batch command: one target per line,
//! `IP HOST [PORT] [SCHEME]`, with blank lines and `#` comments skipped.

use vstd::prelude::*;

use crate::http::HttpScheme;
use crate::net::{IpAddr, parse_ip, parsed_ip};
use crate::probe::target::{Target, target_check};
use crate::text::{
    chars_of, copy_str, decimal, decimal_exec, is_ws, is_ws_exec, lower, lower_exec, push_str, seq_eq_exec,
    string_of, trim, trim_exec,
};

verus! {

/// The text split at every newline (a trailing newline ends the last line
/// rather than starting an empty one).
pub open spec fn split_lines(s: Seq<char>, cur: Seq<char>) -> Seq<Seq<char>>
    decreases s.len(),
{
    if s.len() == 0 {
        if cur.len() > 0 {
            seq![cur]
        } else {
            seq![]
        }
    } else if s[0] == '\n' {
        seq![cur] + split_lines(s.drop_first(), seq![])
    } else {
        split_lines(s.drop_first(), cur.push(s[0]))
    }
}

/// The maximal runs of non-whitespace characters (`str::split_whitespace`).
pub open spec fn split_words(s: Seq<char>, cur: Seq<char>) -> Seq<Seq<char>>
    decreases s.len(),
{
    if s.len() == 0 {
        if cur.len() > 0 {
            seq![cur]
        } else {
            seq![]
        }
    } else if is_ws(s[0]) {
        (if cur.len() > 0 {
            seq![cur]
        } else {
            seq![]
        }) + split_words(s.drop_first(), seq![])
    } else {
        split_words(s.drop_first(), cur.push(s[0]))
    }
}

pub open spec fn is_digit(c: char) -> bool {
    '0' <= c && c <= '9'
}

/// Reads decimal digits after the value `v` read so far, as `u16`'s
/// `FromStr` does: a non-digit is an invalid digit, a value above 65535 an
/// overflow, whichever comes first from the left.
pub open spec fn scan_u16(d: Seq<char>, v: nat) -> Result<nat, Seq<char>>
    decreases d.len(),
{
    if d.len() == 0 {
        Ok(v)
    } else if !is_digit(d[0]) {
        Err("invalid digit found in string"@)
    } else {
        let n = v * 10 + (d[0] as nat - '0' as nat);
        if n > 65535 {
            Err("number too large to fit in target type"@)
        } else {
            scan_u16(d.drop_first(), n as nat)
        }
    }
}

/// `u16`'s `FromStr`, with the text of its error: empty text, an optional
/// leading `+` followed by at least one digit.
pub open spec fn parse_u16(s: Seq<char>) -> Result<u16, Seq<char>> {
    if s.len() == 0 {
        Err("cannot parse integer from empty string"@)
    } else if s[0] == '+' && s.len() == 1 {
        Err("invalid digit found in string"@)
    } else {
        let d = if s[0] == '+' {
            s.drop_first()
        } else {
            s
        };
        match scan_u16(d, 0) {
            Ok(v) => Ok(v as u16),
            Err(e) => Err(e),
        }
    }
}

fn parse_port(s: &[char]) -> (r: Result<u16, String>)
    ensures
        match parse_u16(s@) {
            Ok(v) => r == Ok::<u16, String>(v),
            Err(e) => r matches Err(x) && x@ == e,
        },
{
    if s.len() == 0 {
        return Err(copy_str("cannot parse integer from empty string"));
    }
    if s[0] == '+' && s.len() == 1 {
        return Err(copy_str("invalid digit found in string"));
    }
    let start: usize = if s[0] == '+' {
        1
    } else {
        0
    };
    let ghost d = if s@[0] == '+' {
        s@.drop_first()
    } else {
        s@
    };
    assert(s@.skip(start as int) =~= d);
    let mut v: u32 = 0;
    let mut i = start;
    while i < s.len()
        invariant
            start <= i <= s@.len(),
            s@.len() > 0,
            !(s@[0] == '+' && s@.len() == 1),
            start == if s@[0] == '+' {
                1usize
            } else {
                0usize
            },
            d == if s@[0] == '+' {
                s@.drop_first()
            } else {
                s@
            },
            v <= 65535,
            scan_u16(d, 0) == scan_u16(s@.skip(i as int), v as nat),
        decreases s@.len() - i,
    {
        let c = s[i];
        assert(s@.skip(i as int)[0] == c);
        assert(s@.skip(i as int).drop_first() =~= s@.skip(i + 1));
        if !('0' <= c && c <= '9') {
            return Err(copy_str("invalid digit found in string"));
        }
        let n = v * 10 + (c as u32 - '0' as u32);
        if n > 65535 {
            return Err(copy_str("number too large to fit in target type"));
        }
        v = n;
        i += 1;
    }
    assert(s@.skip(i as int) =~= Seq::<char>::empty());
    Ok(v as u16)
}

/// The target of one `IP HOST [PORT] [SCHEME]` line, by its fields: the
/// port defaults to 443; the scheme, in any case, defaults to `http` on
/// port 80 and `https` otherwise. An error names the place as
/// `path:line`.
pub open spec fn line_target(words: Seq<Seq<char>>, place: Seq<char>) -> Result<
    (IpAddr, Seq<char>, u16, HttpScheme),
    Seq<char>,
> {
    if words.len() < 2 || words.len() > 4 {
        Err("invalid target at "@ + place + "; expected `IP HOST [PORT] [SCHEME]`"@)
    } else {
        match parsed_ip(words[0]) {
            None => Err("invalid IP `"@ + words[0] + "` at "@ + place + ": invalid IP address syntax"@),
            Some(ip) => {
                let port: Result<u16, Seq<char>> = if words.len() >= 3 {
                    parse_u16(words[2])
                } else {
                    Ok(443u16)
                };
                match port {
                    Err(e) => Err("invalid port `"@ + words[2] + "` at "@ + place + ": "@ + e),
                    Ok(p) => if p == 0 {
                        Err("invalid port 0 at "@ + place)
                    } else if words.len() == 4 {
                        if lower(words[3]) == "http"@ {
                            Ok((ip, words[1], p, HttpScheme::Http))
                        } else if lower(words[3]) == "https"@ {
                            Ok((ip, words[1], p, HttpScheme::Https))
                        } else {
                            Err(
                                "invalid scheme `"@ + lower(words[3]) + "` at "@ + place
                                    + "; expected `http` or `https`"@,
                            )
                        }
                    } else if p == 80 {
                        Ok((ip, words[1], p, HttpScheme::Http))
                    } else {
                        Ok((ip, words[1], p, HttpScheme::Https))
                    },
                }
            },
        }
    }
}

/// The place of a line in a file: `path:number`.
pub open spec fn place_of(path: Seq<char>, number: nat) -> Seq<char> {
    path + ":"@ + decimal(number)
}

/// What a line holds: nothing (blank, or a `#` comment), the parts of a
/// target that passes the structural check, or an error.
pub open spec fn line_outcome(line: Seq<char>, path: Seq<char>, number: nat) -> Result<
    Option<(IpAddr, Seq<char>, u16, HttpScheme)>,
    Seq<char>,
> {
    let t = trim(line);
    let place = place_of(path, number);
    if t.len() == 0 || t[0] == '#' {
        Ok(None)
    } else {
        match line_target(split_words(t, seq![]), place) {
            Err(e) => Err(e),
            Ok((ip, host, port, scheme)) => match target_check(host, port) {
                Err(e) => Err("invalid target at "@ + place + ": "@ + e.text()),
                Ok(_) => Ok(Some((ip, host, port, scheme))),
            },
        }
    }
}

/// The targets of the lines numbered from `number` on, or the first error.
pub open spec fn lines_outcome(lines: Seq<Seq<char>>, path: Seq<char>, number: nat) -> Result<
    Seq<(IpAddr, Seq<char>, u16, HttpScheme)>,
    Seq<char>,
>
    decreases lines.len(),
{
    if lines.len() == 0 {
        Ok(seq![])
    } else {
        match line_outcome(lines[0], path, number) {
            Err(e) => Err(e),
            Ok(None) => lines_outcome(lines.drop_first(), path, number + 1),
            Ok(Some(t)) => match lines_outcome(lines.drop_first(), path, number + 1) {
                Err(e) => Err(e),
                Ok(rest) => Ok(seq![t] + rest),
            },
        }
    }
}

/// The targets of a whole list; lines are numbered from 1.
pub open spec fn list_outcome(content: Seq<char>, path: Seq<char>) -> Result<
    Seq<(IpAddr, Seq<char>, u16, HttpScheme)>,
    Seq<char>,
> {
    lines_outcome(split_lines(content, seq![]), path, 1)
}

pub open spec fn target_parts(t: Target) -> (IpAddr, Seq<char>, u16, HttpScheme) {
    (t.ip, t.hostname@, t.port, t.scheme)
}

pub open spec fn all_parts(v: Seq<Target>) -> Seq<(IpAddr, Seq<char>, u16, HttpScheme)> {
    v.map_values(|t: Target| target_parts(t))
}

pub open spec fn word_texts(v: Seq<Vec<char>>) -> Seq<Seq<char>> {
    v.map_values(|w: Vec<char>| w@)
}

fn words_of(t: &[char]) -> (r: Vec<Vec<char>>)
    ensures
        word_texts(r@) == split_words(t@, seq![]),
{
    let mut out: Vec<Vec<char>> = Vec::new();
    let mut cur: Vec<char> = Vec::new();
    let mut i: usize = 0;
    assert(t@.skip(0) =~= t@);
    while i < t.len()
        invariant
            i <= t@.len(),
            split_words(t@, seq![]) == word_texts(out@) + split_words(t@.skip(i as int), cur@),
        decreases t@.len() - i,
    {
        let c = t[i];
        let ghost before = word_texts(out@);
        let ghost cur_before = cur@;
        assert(t@.skip(i as int)[0] == c);
        assert(t@.skip(i as int).drop_first() =~= t@.skip(i + 1));
        if is_ws_exec(c) {
            if cur.len() > 0 {
                out.push(cur);
                assert(word_texts(out@) =~= before + seq![cur_before]);
            } else {
                assert(before + seq![] =~= before);
            }
            cur = Vec::new();
            assert(cur@ =~= Seq::<char>::empty());
        } else {
            cur.push(c);
        }
        i += 1;
    }
    assert(t@.skip(i as int) =~= Seq::<char>::empty());
    if cur.len() > 0 {
        let ghost before = word_texts(out@);
        let ghost last = cur@;
        out.push(cur);
        assert(word_texts(out@) =~= before + seq![last]);
    }
    out
}

fn place_text(path: &str, number: usize) -> (r: String)
    ensures
        r@ == place_of(path@, number as nat),
{
    let mut r = copy_str(path);
    push_str(&mut r, ":");
    let d = decimal_exec(number as u64);
    push_str(&mut r, d.as_str());
    r
}

fn parse_fields(words: &Vec<Vec<char>>, place: &str) -> (r: Result<Target, String>)
    ensures
        match line_target(word_texts(words@), place@) {
            Ok(p) => r matches Ok(t) && target_parts(t) == p,
            Err(e) => r matches Err(x) && x@ == e,
        },
{
    let ghost w = word_texts(words@);
    if words.len() < 2 || words.len() > 4 {
        let mut m = copy_str("invalid target at ");
        push_str(&mut m, place);
        push_str(&mut m, "; expected `IP HOST [PORT] [SCHEME]`");
        return Err(m);
    }
    assert(w[0] == words@[0]@ && w[1] == words@[1]@);
    let ip_text = string_of(words[0].as_slice());
    let ip = match parse_ip(ip_text.as_str()) {
        Some(ip) => ip,
        None => {
            let mut m = copy_str("invalid IP `");
            push_str(&mut m, ip_text.as_str());
            push_str(&mut m, "` at ");
            push_str(&mut m, place);
            push_str(&mut m, ": invalid IP address syntax");
            return Err(m);
        },
    };
    let port = if words.len() >= 3 {
        assert(w[2] == words@[2]@);
        match parse_port(words[2].as_slice()) {
            Ok(p) => p,
            Err(e) => {
                let mut m = copy_str("invalid port `");
                let p = string_of(words[2].as_slice());
                push_str(&mut m, p.as_str());
                push_str(&mut m, "` at ");
                push_str(&mut m, place);
                push_str(&mut m, ": ");
                push_str(&mut m, e.as_str());
                return Err(m);
            },
        }
    } else {
        443
    };
    if port == 0 {
        let mut m = copy_str("invalid port 0 at ");
        push_str(&mut m, place);
        return Err(m);
    }
    let hostname = string_of(words[1].as_slice());
    let scheme = if words.len() == 4 {
        assert(w[3] == words@[3]@);
        let l = lower_exec(words[3].as_slice());
        let http = chars_of("http");
        let https = chars_of("https");
        if seq_eq_exec(l.as_slice(), http.as_slice()) {
            HttpScheme::Http
        } else if seq_eq_exec(l.as_slice(), https.as_slice()) {
            HttpScheme::Https
        } else {
            let mut m = copy_str("invalid scheme `");
            let o = string_of(l.as_slice());
            push_str(&mut m, o.as_str());
            push_str(&mut m, "` at ");
            push_str(&mut m, place);
            push_str(&mut m, "; expected `http` or `https`");
            return Err(m);
        }
    } else if port == 80 {
        HttpScheme::Http
    } else {
        HttpScheme::Https
    };
    Ok(Target { ip, hostname, port, scheme })
}

/// Reads one line; see `line_outcome`.
pub fn parse_target_line(line: &[char], path: &str, number: usize) -> (r: Result<Option<Target>, String>)
    ensures
        match line_outcome(line@, path@, number as nat) {
            Ok(None) => r matches Ok(None),
            Ok(Some(p)) => r matches Ok(Some(t)) && target_parts(t) == p,
            Err(e) => r matches Err(x) && x@ == e,
        },
{
    let t = trim_exec(line);
    if t.len() == 0 || t[0] == '#' {
        return Ok(None);
    }
    let place = place_text(path, number);
    let words = words_of(t.as_slice());
    let target = parse_fields(&words, place.as_str())?;
    match target.validate() {
        Ok(()) => Ok(Some(target)),
        Err(e) => {
            let mut m = copy_str("invalid target at ");
            push_str(&mut m, place.as_str());
            push_str(&mut m, ": ");
            let et = e.to_string();
            push_str(&mut m, et.as_str());
            Err(m)
        },
    }
}

pub open spec fn prepend(done: Seq<(IpAddr, Seq<char>, u16, HttpScheme)>, rest: Result<
    Seq<(IpAddr, Seq<char>, u16, HttpScheme)>,
    Seq<char>,
>) -> Result<Seq<(IpAddr, Seq<char>, u16, HttpScheme)>, Seq<char>> {
    match rest {
        Ok(ts) => Ok(done + ts),
        Err(e) => Err(e),
    }
}

/// Reads a whole target list; see `list_outcome`.
pub fn parse_target_list(content: &str, path: &str) -> (r: Result<Vec<Target>, String>)
    requires
        content@.len() < usize::MAX,
    ensures
        match list_outcome(content@, path@) {
            Ok(ts) => r matches Ok(v) && all_parts(v@) == ts,
            Err(e) => r matches Err(x) && x@ == e,
        },
{
    let cs = chars_of(content);
    let mut out: Vec<Target> = Vec::new();
    let mut cur: Vec<char> = Vec::new();
    let mut number: usize = 1;
    let mut i: usize = 0;
    assert(cs@.skip(0) =~= cs@);
    assert(all_parts(out@) =~= Seq::<(IpAddr, Seq<char>, u16, HttpScheme)>::empty());
    assert(prepend(seq![], list_outcome(content@, path@)) == list_outcome(content@, path@)) by {
        match list_outcome(content@, path@) {
            Ok(ts) => {
                assert(Seq::<(IpAddr, Seq<char>, u16, HttpScheme)>::empty() + ts =~= ts);
            },
            Err(_) => {},
        }
    }
    while i < cs.len()
        invariant
            cs@ == content@,
            content@.len() < usize::MAX,
            i <= cs@.len(),
            number <= i + 1,
            list_outcome(content@, path@) == prepend(
                all_parts(out@),
                lines_outcome(split_lines(cs@.skip(i as int), cur@), path@, number as nat),
            ),
        decreases cs@.len() - i,
    {
        let c = cs[i];
        assert(cs@.skip(i as int)[0] == c);
        assert(cs@.skip(i as int).drop_first() =~= cs@.skip(i + 1));
        if c == '\n' {
            let ghost rest_lines = split_lines(cs@.skip(i + 1), seq![]);
            let ghost lines = seq![cur@] + rest_lines;
            assert(lines[0] == cur@);
            assert(lines.drop_first() =~= rest_lines);
            let ghost done = all_parts(out@);
            match parse_target_line(cur.as_slice(), path, number) {
                Err(m) => {
                    return Err(m);
                },
                Ok(None) => {},
                Ok(Some(t)) => {
                    out.push(t);
                    proof {
                        assert(all_parts(out@) =~= done + seq![target_parts(t)]);
                        match lines_outcome(rest_lines, path@, number as nat + 1) {
                            Ok(ts) => {
                                assert(done + (seq![target_parts(t)] + ts) =~= done + seq![target_parts(t)] + ts);
                            },
                            Err(_) => {},
                        }
                    }
                },
            }
            cur = Vec::new();
            assert(cur@ =~= Seq::<char>::empty());
            number += 1;
        } else {
            cur.push(c);
        }
        i += 1;
    }
    assert(cs@.skip(i as int) =~= Seq::<char>::empty());
    let ghost done = all_parts(out@);
    if cur.len() > 0 {
        let ghost lines = seq![cur@];
        assert(lines[0] == cur@);
        assert(lines.drop_first() =~= Seq::<Seq<char>>::empty());
        assert(lines_outcome(lines.drop_first(), path@, number as nat + 1) == Ok::<
            Seq<(IpAddr, Seq<char>, u16, HttpScheme)>,
            Seq<char>,
        >(Seq::empty()));
        match parse_target_line(cur.as_slice(), path, number) {
            Err(m) => {
                return Err(m);
            },
            Ok(None) => {
                assert(done + seq![] =~= done);
            },
            Ok(Some(t)) => {
                out.push(t);
                assert(all_parts(out@) =~= done + seq![target_parts(t)]);
                assert(done + (seq![target_parts(t)] + seq![]) =~= done + seq![target_parts(t)]);
            },
        }
    } else {
        assert(done + seq![] =~= done);
    }
    Ok(out)
}

/// Why a loaded list cannot be run: it holds no target, or more than
/// allowed.
pub open spec fn batch_input_problem(count: nat, max_targets: nat, path: Seq<char>) -> Option<Seq<char>> {
    if count == 0 {
        Some("no valid targets found in "@ + path)
    } else if count > max_targets {
        Some(
            "input contains "@ + decimal(count) + " targets, exceeding --max-targets "@ + decimal(
                max_targets,
            ),
        )
    } else {
        None
    }
}

pub fn check_batch_input(count: usize, max_targets: usize, path: &str) -> (r: Option<String>)
    ensures
        match batch_input_problem(count as nat, max_targets as nat, path@) {
            None => r is None,
            Some(m) => r matches Some(x) && x@ == m,
        },
{
    if count == 0 {
        let mut m = copy_str("no valid targets found in ");
        push_str(&mut m, path);
        Some(m)
    } else if count > max_targets {
        let mut m = copy_str("input contains ");
        let a = decimal_exec(count as u64);
        push_str(&mut m, a.as_str());
        push_str(&mut m, " targets, exceeding --max-targets ");
        let b = decimal_exec(max_targets as u64);
        push_str(&mut m, b.as_str());
        Some(m)
    } else {
        None
    }
}

} // verus!
