//! Renders a resolved configuration as the modules file handed to the
//! external router builder: one optional default-host line, then one
//! `[[module]]` block per entry. The text is built and specified character
//! by character, with TOML basic-string escaping.

use vstd::prelude::*;

use crate::config::{WagiModulesConfig, WagiModulesConfigV, WagiModuleConfigV};

verus! {

/// The lower-case hex digit for a value below sixteen.
pub open spec fn hex_digit(n: int) -> char {
    if n == 0 {
        '0'
    } else if n == 1 {
        '1'
    } else if n == 2 {
        '2'
    } else if n == 3 {
        '3'
    } else if n == 4 {
        '4'
    } else if n == 5 {
        '5'
    } else if n == 6 {
        '6'
    } else if n == 7 {
        '7'
    } else if n == 8 {
        '8'
    } else if n == 9 {
        '9'
    } else if n == 10 {
        'a'
    } else if n == 11 {
        'b'
    } else if n == 12 {
        'c'
    } else if n == 13 {
        'd'
    } else if n == 14 {
        'e'
    } else {
        'f'
    }
}

/// How one character appears inside a TOML basic string: quote, backslash
/// and the common control characters get their short escapes, any other
/// control character its four-digit escape, everything else stands as is.
pub open spec fn esc_char(c: char) -> Seq<char> {
    if c == '"' {
        seq!['\\', '"']
    } else if c == '\\' {
        seq!['\\', '\\']
    } else if c == '\n' {
        seq!['\\', 'n']
    } else if c == '\r' {
        seq!['\\', 'r']
    } else if c == '\t' {
        seq!['\\', 't']
    } else if (c as u32) < 32 || (c as u32) == 127 {
        seq![
            '\\',
            'u',
            '0',
            '0',
            hex_digit(((c as u32) >> 4) as int),
            hex_digit(((c as u32) & 15) as int),
        ]
    } else {
        seq![c]
    }
}

/// The escaped form of the first `k` characters.
pub open spec fn escape_upto(s: Seq<char>, k: int) -> Seq<char>
    decreases k,
{
    if k <= 0 {
        Seq::empty()
    } else {
        escape_upto(s, k - 1) + esc_char(s[k - 1])
    }
}

/// A TOML basic string: the escaped text between double quotes.
pub open spec fn toml_string(s: Seq<char>) -> Seq<char> {
    seq!['"'] + escape_upto(s, s.len() as int) + seq!['"']
}

/// The first `k` allowed hosts as a comma-separated list of strings.
pub open spec fn hosts_upto(hosts: Seq<Seq<char>>, k: int) -> Seq<char>
    decreases k,
{
    if k <= 0 {
        Seq::empty()
    } else if k == 1 {
        toml_string(hosts[0])
    } else {
        hosts_upto(hosts, k - 1) + ", "@ + toml_string(hosts[k - 1])
    }
}

/// One `[[module]]` block: the optional entrypoint, the route, the optional
/// allowed-host list, and the module locator.
pub open spec fn module_block(m: WagiModuleConfigV) -> Seq<char> {
    "[[module]]\n"@ + (match m.entrypoint {
        Option::Some(e) => "entrypoint = "@ + toml_string(e) + "\n"@,
        Option::None => Seq::<char>::empty(),
    }) + "route = "@ + toml_string(m.route) + "\n"@ + (match m.allowed_hosts {
        Option::Some(hs) => "allowed_hosts = ["@ + hosts_upto(hs, hs.len() as int) + "]\n"@,
        Option::None => Seq::<char>::empty(),
    }) + "module = "@ + toml_string(m.module) + "\n"@
}

/// The blocks of the first `k` modules.
pub open spec fn blocks_upto(ms: Seq<WagiModuleConfigV>, k: int) -> Seq<char>
    decreases k,
{
    if k <= 0 {
        Seq::empty()
    } else {
        blocks_upto(ms, k - 1) + module_block(ms[k - 1])
    }
}

/// The whole modules file for one configuration.
pub open spec fn modules_toml(c: WagiModulesConfigV) -> Seq<char> {
    (match c.default_host {
        Option::Some(h) => "default_host = "@ + toml_string(h) + "\n"@,
        Option::None => Seq::<char>::empty(),
    }) + blocks_upto(c.modules, c.modules.len() as int)
}

/// Appends a literal piece of the file.
fn push_lit(out: &mut Vec<char>, s: &str)
    ensures
        final(out)@ == old(out)@ + s@,
{
    let n = s.unicode_len();
    let mut i: usize = 0;
    while i < n
        invariant
            i <= n,
            n == s@.len(),
            out@ == old(out)@ + s@.take(i as int),
        decreases n - i,
    {
        out.push(s.get_char(i));
        assert(out@ =~= old(out)@ + s@.take(i + 1 as int));
        i += 1;
    }
    assert(out@ =~= old(out)@ + s@);
}

/// The lower-case hex digit, executable form.
fn hex_char(n: u32) -> (r: char)
    requires
        n < 16,
    ensures
        r == hex_digit(n as int),
{
    if n == 0 {
        '0'
    } else if n == 1 {
        '1'
    } else if n == 2 {
        '2'
    } else if n == 3 {
        '3'
    } else if n == 4 {
        '4'
    } else if n == 5 {
        '5'
    } else if n == 6 {
        '6'
    } else if n == 7 {
        '7'
    } else if n == 8 {
        '8'
    } else if n == 9 {
        '9'
    } else if n == 10 {
        'a'
    } else if n == 11 {
        'b'
    } else if n == 12 {
        'c'
    } else if n == 13 {
        'd'
    } else if n == 14 {
        'e'
    } else {
        'f'
    }
}

/// Appends one character in its escaped form.
fn push_escaped_char(out: &mut Vec<char>, c: char)
    ensures
        final(out)@ == old(out)@ + esc_char(c),
{
    if c == '"' {
        out.push('\\');
        out.push('"');
    } else if c == '\\' {
        out.push('\\');
        out.push('\\');
    } else if c == '\n' {
        out.push('\\');
        out.push('n');
    } else if c == '\r' {
        out.push('\\');
        out.push('r');
    } else if c == '\t' {
        out.push('\\');
        out.push('t');
    } else {
        let u = c as u32;
        if u < 32 || u == 127 {
            assert((u >> 4) < 16 && (u & 15) < 16) by (bit_vector)
                requires
                    u < 32 || u == 127,
            ;
            out.push('\\');
            out.push('u');
            out.push('0');
            out.push('0');
            out.push(hex_char(u >> 4));
            out.push(hex_char(u & 15));
        } else {
            out.push(c);
        }
    }
    assert(out@ =~= old(out)@ + esc_char(c));
}

/// Appends a whole TOML basic string.
fn push_string(out: &mut Vec<char>, s: &String)
    ensures
        final(out)@ == old(out)@ + toml_string(s@),
{
    out.push('"');
    let n = s.as_str().unicode_len();
    let mut i: usize = 0;
    while i < n
        invariant
            i <= n,
            n == s@.len(),
            out@ == old(out)@ + seq!['"'] + escape_upto(s@, i as int),
        decreases n - i,
    {
        let c = s.as_str().get_char(i);
        push_escaped_char(out, c);
        assert(out@ =~= old(out)@ + seq!['"'] + escape_upto(s@, i + 1 as int));
        i += 1;
    }
    out.push('"');
    assert(out@ =~= old(out)@ + toml_string(s@));
}

/// Appends the allowed-host list.
fn push_hosts(out: &mut Vec<char>, hosts: &Vec<String>)
    ensures
        final(out)@ == old(out)@ + hosts_upto(hosts.deep_view(), hosts@.len() as int),
{
    let ghost hv = hosts.deep_view();
    let mut j: usize = 0;
    while j < hosts.len()
        invariant
            j <= hosts@.len(),
            hv == hosts.deep_view(),
            hv.len() == hosts@.len(),
            out@ == old(out)@ + hosts_upto(hv, j as int),
        decreases hosts@.len() - j,
    {
        proof {
            assert(hv[j as int] == hosts@[j as int]@);
        }
        if j > 0 {
            push_lit(out, ", ");
        }
        push_string(out, &hosts[j]);
        assert(out@ =~= old(out)@ + hosts_upto(hv, j + 1 as int));
        j += 1;
    }
}

/// Renders the whole modules file for a configuration, as characters.
#[verifier::rlimit(80)]
fn modules_toml_chars(c: &WagiModulesConfig) -> (r: Vec<char>)
    ensures
        r@ == modules_toml(c@),
{
    let mut out: Vec<char> = Vec::new();
    match &c.default_host {
        Option::Some(h) => {
            push_lit(&mut out, "default_host = ");
            push_string(&mut out, h);
            push_lit(&mut out, "\n");
        },
        Option::None => {},
    }
    let ghost header = out@;
    assert(header =~= (match c@.default_host {
        Option::Some(h) => "default_host = "@ + toml_string(h) + "\n"@,
        Option::None => Seq::<char>::empty(),
    }));
    let mut i: usize = 0;
    while i < c.modules.len()
        invariant
            i <= c.modules@.len(),
            c@.modules.len() == c.modules@.len(),
            out@ == header + blocks_upto(c@.modules, i as int),
            header == (match c@.default_host {
                Option::Some(h) => "default_host = "@ + toml_string(h) + "\n"@,
                Option::None => Seq::<char>::empty(),
            }),
        decreases c.modules@.len() - i,
    {
        proof {
            assert(c@.modules[i as int] == c.modules@[i as int]@);
        }
        let ghost before = out@;
        let m = &c.modules[i];
        push_lit(&mut out, "[[module]]\n");
        match &m.entrypoint {
            Option::Some(e) => {
                push_lit(&mut out, "entrypoint = ");
                push_string(&mut out, e);
                push_lit(&mut out, "\n");
            },
            Option::None => {},
        }
        push_lit(&mut out, "route = ");
        push_string(&mut out, &m.route);
        push_lit(&mut out, "\n");
        match &m.allowed_hosts {
            Option::Some(hs) => {
                push_lit(&mut out, "allowed_hosts = [");
                push_hosts(&mut out, hs);
                push_lit(&mut out, "]\n");
            },
            Option::None => {},
        }
        push_lit(&mut out, "module = ");
        push_string(&mut out, &m.module);
        push_lit(&mut out, "\n");
        assert(out@ =~= before + module_block(c@.modules[i as int]));
        assert(out@ =~= header + blocks_upto(c@.modules, i + 1 as int));
        i += 1;
    }
    assert(out@ =~= modules_toml(c@));
    out
}

/// Relies on `String`'s `FromIterator<char>`: collecting characters yields
/// the string of exactly those characters in order.
#[verifier::external_body]
fn chars_to_string(v: &Vec<char>) -> (r: String)
    ensures
        r@ == v@,
{
    v.iter().collect()
}

/// The modules file handed to the external router builder, rendered from a
/// resolved configuration.
pub fn modules_toml_text(c: &WagiModulesConfig) -> (r: String)
    ensures
        r@ == modules_toml(c@),
{
    let chars = modules_toml_chars(c);
    chars_to_string(&chars)
}

} // verus!
