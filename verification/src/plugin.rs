//! Plugin manifest entries, integrity checking, and the subprocess
//! argument and exit-status conventions.
//!
//! A plugin is arbitrary native code; its executable identity is
//! established by a trusted content digest, so a stale or tampered binary
//! never executes silently.

use vstd::prelude::*;

use sha2::Digest;

use crate::errors::ErrV;
use crate::errors::SiteError;

verus! {

/// The build phase at which a plugin runs.
#[derive(Clone, Copy, PartialEq, Eq, Structural, Debug)]
pub enum HookKind {
    /// Before templates and pages are loaded.
    Pre,
    /// After all pages are rendered, before publish.
    Post,
}

/// One manifest entry: the hook phase, the executable's name inside the
/// plugin directory, its trusted content hash (lower-case hex digest), and
/// the extra key/value arguments forwarded to the subprocess.
pub struct Plugin {
    pub hook: HookKind,
    pub name: String,
    pub hash: String,
    pub extra: Vec<(String, String)>,
}

/// Spec-level shape of a [`Plugin`].
pub struct PluginV {
    pub hook: HookKind,
    pub name: Seq<char>,
    pub hash: Seq<char>,
    pub extra: Seq<(Seq<char>, Seq<char>)>,
}

impl View for Plugin {
    type V = PluginV;

    open spec fn view(&self) -> PluginV {
        PluginV {
            hook: self.hook,
            name: self.name@,
            hash: self.hash@,
            extra: self.extra.deep_view(),
        }
    }
}

impl DeepView for Plugin {
    type V = PluginV;

    open spec fn deep_view(&self) -> PluginV {
        self.view()
    }
}

/// The SHA-256 digest of a byte sequence, as sha2 computes it.
pub uninterp spec fn sha256_of(b: Seq<u8>) -> Seq<u8>;

/// Relies on sha2's `Sha256` hasher: the digest is a function of the input
/// bytes alone, and its output is 32 bytes long.
#[verifier::external_body]
fn sha256_digest(b: &[u8]) -> (r: Vec<u8>)
    ensures
        r@ == sha256_of(b@),
        r@.len() == 32,
{
    sha2::Sha256::digest(b).as_slice().to_vec()
}

/// The lower-case hex character of a four-bit value.
pub open spec fn spec_hex_char(n: u8) -> char {
    if n == 0 {
        '0'
    } else if n == 1 {
        '1'
    } else if n == 2 {
        '2'
    } else if n == 3 {
        '3'
    } else if n == 4 {
        '4'
    } else if n == 5 {
        '5'
    } else if n == 6 {
        '6'
    } else if n == 7 {
        '7'
    } else if n == 8 {
        '8'
    } else if n == 9 {
        '9'
    } else if n == 10 {
        'a'
    } else if n == 11 {
        'b'
    } else if n == 12 {
        'c'
    } else if n == 13 {
        'd'
    } else if n == 14 {
        'e'
    } else {
        'f'
    }
}

/// The lower-case hex encoding of a byte sequence: two digits per byte.
pub open spec fn spec_hex_of(b: Seq<u8>) -> Seq<char>
    decreases b.len(),
{
    if b.len() == 0 {
        Seq::empty()
    } else {
        seq![spec_hex_char(b[0] / 16), spec_hex_char(b[0] % 16)] + spec_hex_of(b.drop_first())
    }
}

proof fn lemma_hex_push(b: Seq<u8>, x: u8)
    ensures
        spec_hex_of(b.push(x)) == spec_hex_of(b) + seq![
            spec_hex_char(x / 16),
            spec_hex_char(x % 16),
        ],
    decreases b.len(),
{
    let pair = seq![spec_hex_char(x / 16), spec_hex_char(x % 16)];
    if b.len() == 0 {
        assert(b.push(x).len() == 1);
        assert(b.push(x)[0] == x);
        assert(b.push(x).drop_first() =~= Seq::<u8>::empty());
        assert(spec_hex_of(Seq::<u8>::empty()) == Seq::<char>::empty());
        assert(spec_hex_of(b) == Seq::<char>::empty());
        assert(spec_hex_of(b.push(x)) == pair + spec_hex_of(b.push(x).drop_first()));
        assert(spec_hex_of(b.push(x)) =~= spec_hex_of(b) + pair);
    } else {
        let hd = seq![spec_hex_char(b[0] / 16), spec_hex_char(b[0] % 16)];
        assert(b.push(x)[0] == b[0]);
        assert(b.push(x).drop_first() =~= b.drop_first().push(x));
        lemma_hex_push(b.drop_first(), x);
        assert(spec_hex_of(b.push(x)) == hd + spec_hex_of(b.drop_first().push(x)));
        assert(spec_hex_of(b.drop_first().push(x)) == spec_hex_of(b.drop_first()) + pair);
        assert(spec_hex_of(b) == hd + spec_hex_of(b.drop_first()));
        assert(spec_hex_of(b.push(x)) =~= spec_hex_of(b) + pair);
    }
}

fn hex_str(n: u8) -> (r: &'static str)
    requires
        n < 16,
    ensures
        r@ == seq![spec_hex_char(n)],
{
    proof {
        reveal_strlit("0");
        reveal_strlit("1");
        reveal_strlit("2");
        reveal_strlit("3");
        reveal_strlit("4");
        reveal_strlit("5");
        reveal_strlit("6");
        reveal_strlit("7");
        reveal_strlit("8");
        reveal_strlit("9");
        reveal_strlit("a");
        reveal_strlit("b");
        reveal_strlit("c");
        reveal_strlit("d");
        reveal_strlit("e");
        reveal_strlit("f");
    }
    let r = if n == 0 {
        "0"
    } else if n == 1 {
        "1"
    } else if n == 2 {
        "2"
    } else if n == 3 {
        "3"
    } else if n == 4 {
        "4"
    } else if n == 5 {
        "5"
    } else if n == 6 {
        "6"
    } else if n == 7 {
        "7"
    } else if n == 8 {
        "8"
    } else if n == 9 {
        "9"
    } else if n == 10 {
        "a"
    } else if n == 11 {
        "b"
    } else if n == 12 {
        "c"
    } else if n == 13 {
        "d"
    } else if n == 14 {
        "e"
    } else {
        "f"
    };
    proof {
        assert(r@ =~= seq![spec_hex_char(n)]);
    }
    r
}

/// The lower-case hex encoding of the given bytes.
pub fn hex_string(bytes: &Vec<u8>) -> (r: String)
    ensures
        r@ == spec_hex_of(bytes@),
{
    let mut out = String::new();
    let mut i: usize = 0;
    while i < bytes.len()
        invariant
            i <= bytes@.len(),
            out@ == spec_hex_of(bytes@.take(i as int)),
        decreases bytes@.len() - i,
    {
        let b = bytes[i];
        out.append(hex_str(b / 16));
        out.append(hex_str(b % 16));
        proof {
            assert(bytes@.take(i as int + 1) =~= bytes@.take(i as int).push(bytes@[i as int]));
            lemma_hex_push(bytes@.take(i as int), bytes@[i as int]);
            assert(out@ =~= spec_hex_of(bytes@.take(i as int)) + seq![
                spec_hex_char(b / 16),
                spec_hex_char(b % 16),
            ]);
        }
        i += 1;
    }
    proof {
        assert(bytes@.take(bytes@.len() as int) =~= bytes@);
    }
    out
}

/// The lower-case hex SHA-256 digest of the given bytes: the content
/// digest by which plugin executables are identified.
pub fn digest_hex(bytes: &[u8]) -> (r: String)
    ensures
        r@ == spec_hex_of(sha256_of(bytes@)),
{
    let d = sha256_digest(bytes);
    hex_string(&d)
}

/// The integrity decision of plugin resolution: succeeds exactly when
/// verification is disabled or the executable's content digest matches the
/// manifest's trusted hash.
pub fn resolve_check(name: &str, bytes: &[u8], trusted: &str, skip_verify: bool) -> (r: Result<
    (),
    SiteError,
>)
    ensures
        r is Ok <==> (skip_verify || spec_hex_of(sha256_of(bytes@)) == trusted@),
        r matches Err(e) ==> e@ == (ErrV::IntegrityMismatch { name: name@ }),
{
    if skip_verify {
        return Ok(());
    }
    let computed = digest_hex(bytes);
    if crate::strings::str_eq(computed.as_str(), trusted) {
        Ok(())
    } else {
        Err(SiteError::IntegrityMismatch { name: String::from_str(name) })
    }
}

/// Maps a plugin subprocess's exit status to the build outcome: exit code
/// zero succeeds; any other code fails; termination by signal (no exit
/// code at all) fails separately.
pub fn exit_outcome(name: &str, code: Option<i32>) -> (r: Result<(), SiteError>)
    ensures
        r is Ok <==> code == Some(0i32),
        r matches Err(e) ==> e@ == match code {
            Some(c) => ErrV::PluginExecutionFailed { code: c },
            None => ErrV::PluginNoExitCode { name: name@ },
        },
{
    match code {
        Some(c) => {
            if c == 0 {
                Ok(())
            } else {
                Err(SiteError::PluginExecutionFailed { code: c })
            }
        },
        None => Err(SiteError::PluginNoExitCode { name: String::from_str(name) }),
    }
}

/// One `key=value` subprocess argument token.
pub open spec fn spec_kv_token(k: Seq<char>, v: Seq<char>) -> Seq<char> {
    k + "="@ + v
}

/// The subprocess argument list built from a plugin's extra fields, in
/// manifest order.
pub open spec fn spec_plugin_args(extra: Seq<(Seq<char>, Seq<char>)>) -> Seq<Seq<char>> {
    extra.map_values(|p: (Seq<char>, Seq<char>)| spec_kv_token(p.0, p.1))
}

/// Formats every extra key/value of the manifest entry as a `key=value`
/// token, in manifest order.
pub fn plugin_args(p: &Plugin) -> (r: Vec<String>)
    ensures
        r.deep_view() == spec_plugin_args(p@.extra),
{
    let mut out: Vec<String> = Vec::new();
    let mut i: usize = 0;
    while i < p.extra.len()
        invariant
            i <= p.extra@.len(),
            out.deep_view() == spec_plugin_args(p.extra.deep_view().take(i as int)),
        decreases p.extra@.len() - i,
    {
        let mut token = p.extra[i].0.clone();
        token.append("=");
        token.append(p.extra[i].1.as_str());
        out.push(token);
        proof {
            let ev = p.extra.deep_view();
            assert(ev.take(i as int + 1) =~= ev.take(i as int).push(ev[i as int]));
            assert(token@ == spec_kv_token(ev[i as int].0, ev[i as int].1));
            assert(out.deep_view() =~= spec_plugin_args(ev.take(i as int)).push(
                spec_kv_token(ev[i as int].0, ev[i as int].1),
            ));
            assert(spec_plugin_args(ev.take(i as int + 1)) =~= spec_plugin_args(
                ev.take(i as int),
            ).push(spec_kv_token(ev[i as int].0, ev[i as int].1)));
        }
        i += 1;
    }
    proof {
        assert(p.extra.deep_view().take(p.extra@.len() as int) =~= p.extra.deep_view());
    }
    out
}

/// Parses a manifest entry's hook phase: `pre` or `post`, nothing else.
pub fn parse_hook(s: &str) -> (r: Option<HookKind>)
    ensures
        r == Some(HookKind::Pre) <==> s@ == "pre"@,
        r == Some(HookKind::Post) <==> s@ == "post"@,
        r is None <==> (s@ != "pre"@ && s@ != "post"@),
{
    proof {
        reveal_strlit("pre");
        reveal_strlit("post");
        assert("pre"@.len() == 3);
        assert("post"@.len() == 4);
    }
    if crate::strings::str_eq(s, "pre") {
        Some(HookKind::Pre)
    } else if crate::strings::str_eq(s, "post") {
        Some(HookKind::Post)
    } else {
        None
    }
}

/// The index of the first plugin at or after `from` that runs at hook `h`,
/// or the manifest's length when none is left.
pub open spec fn spec_next_hook(plugins: Seq<PluginV>, from: int, h: HookKind) -> int
    decreases plugins.len() - from,
{
    if from >= plugins.len() {
        plugins.len() as int
    } else if plugins[from].hook == h {
        from
    } else {
        spec_next_hook(plugins, from + 1, h)
    }
}

/// Finds the first plugin at or after `from` that runs at hook `h`.
pub fn next_hook(plugins: &Vec<Plugin>, from: usize, h: HookKind) -> (r: usize)
    ensures
        r == spec_next_hook(plugins.deep_view(), from as int, h),
        r <= plugins@.len(),
        from <= plugins@.len() ==> from <= r,
{
    let mut i: usize = from;
    if i > plugins.len() {
        i = plugins.len();
    }
    while i < plugins.len()
        invariant
            i <= plugins@.len(),
            spec_next_hook(plugins.deep_view(), from as int, h) == spec_next_hook(
                plugins.deep_view(),
                i as int,
                h,
            ),
            from <= plugins@.len() ==> from <= i,
        decreases plugins@.len() - i,
    {
        if plugins[i].hook == h {
            return i;
        }
        i += 1;
    }
    i
}

} // verus!
