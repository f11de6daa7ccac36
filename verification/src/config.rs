//! Boot configuration information for the kernel.
//!
//! The boot loader hands over a single command line string; this module
//! parses it as whitespace-separated tokens, reads `name=value` options out
//! of them, and converts option values to integers.

use vstd::prelude::*;

use crate::util::string::FromStrExt;
use vstd::string::StringSliceAdditionalSpecFns;

verus! {

/// Split `s` at every occurrence of `sep`, keeping empty pieces, as the
/// usual string split does: splitting the empty string yields one empty
/// piece.
pub open spec fn spec_split(s: Seq<u8>, sep: u8) -> Seq<Seq<u8>>
    decreases s.len(),
{
    if s.len() == 0 {
        seq![Seq::<u8>::empty()]
    } else if s[0] == sep {
        seq![Seq::<u8>::empty()] + spec_split(s.skip(1), sep)
    } else {
        let rest = spec_split(s.skip(1), sep);
        seq![seq![s[0]] + rest[0]] + rest.skip(1)
    }
}

/// A split has at least one piece.
pub proof fn lemma_split_nonempty(s: Seq<u8>, sep: u8)
    ensures
        spec_split(s, sep).len() >= 1,
    decreases s.len(),
{
    if s.len() != 0 {
        lemma_split_nonempty(s.skip(1), sep);
    }
}

/// The `name=value` reading of one token: the bytes before the first `=`
/// and the bytes between the first and the second `=`; nothing when the
/// token holds no `=` at all.
pub open spec fn spec_token_kv(t: Seq<u8>) -> Option<(Seq<u8>, Seq<u8>)> {
    let parts = spec_split(t, 61);
    if parts.len() >= 2 {
        Some((parts[0], parts[1]))
    } else {
        None
    }
}

/// The first `name=value` option at or after token `idx` whose name is
/// `name`.
pub open spec fn spec_find_option(tokens: Seq<Seq<u8>>, idx: int, name: Seq<u8>) -> Option<
    (Seq<u8>, Seq<u8>),
>
    decreases tokens.len() - idx,
{
    if !(0 <= idx < tokens.len()) {
        None
    } else {
        match spec_token_kv(tokens[idx]) {
            Some(kv) => if kv.0 == name {
                Some(kv)
            } else {
                spec_find_option(tokens, idx + 1, name)
            },
            None => spec_find_option(tokens, idx + 1, name),
        }
    }
}

/// Split the bytes of `s` from index `i` on at every `sep`.
fn split_from(s: &[u8], i: usize, sep: u8) -> (r: Vec<Vec<u8>>)
    requires
        i <= s@.len(),
    ensures
        r.deep_view() == spec_split(s@.skip(i as int), sep),
    decreases s@.len() - i,
{
    if i == s.len() {
        proof {
            assert(s@.skip(i as int) =~= Seq::<u8>::empty());
        }
        let mut one: Vec<Vec<u8>> = Vec::new();
        one.push(Vec::new());
        proof {
            assert(one.deep_view() =~~= spec_split(s@.skip(i as int), sep));
        }
        one
    } else {
        let c = *vstd::slice::slice_index_get(s, i);
        let mut rest = split_from(s, i + 1, sep);
        proof {
            assert(s@.skip(i as int).skip(1) =~= s@.skip(i + 1));
            lemma_split_nonempty(s@.skip(i + 1), sep);
        }
        if c == sep {
            rest.insert(0, Vec::new());
            proof {
                assert(rest.deep_view() =~~= spec_split(s@.skip(i as int), sep));
            }
            rest
        } else {
            let mut first = rest.remove(0);
            first.insert(0, c);
            rest.insert(0, first);
            proof {
                assert(rest.deep_view() =~~= spec_split(s@.skip(i as int), sep));
            }
            rest
        }
    }
}

/// Compare two byte strings for equality.
fn bytes_eq(a: &[u8], b: &[u8]) -> (r: bool)
    ensures
        r == (a@ == b@),
{
    if a.len() != b.len() {
        return false;
    }
    let mut i: usize = 0;
    while i < a.len()
        invariant
            0 <= i <= a@.len(),
            a@.len() == b@.len(),
            forall|j: int| 0 <= j < i ==> a@[j] == b@[j],
        decreases a@.len() - i,
    {
        if *vstd::slice::slice_index_get(a, i) != *vstd::slice::slice_index_get(b, i) {
            return false;
        }
        i = i + 1;
    }
    proof {
        assert(a@ =~= b@);
    }
    true
}

/// Boot configuration parameters.
pub struct BootConfig {
    /// Command line option string that is typically passed at run time by
    /// the boot loader.
    cmdline: Vec<u8>,
}

/// A single `name=value` option from the command line.
pub struct CommandLineOption {
    pub name: Vec<u8>,
    pub value: Vec<u8>,
}

/// Iterator over the `name=value` options among the command line tokens.
pub struct CommandLineOptionIter {
    tokens: Vec<Vec<u8>>,
    idx: usize,
}

/// The first option at or after token `idx`, together with the token index
/// after it; tokens without `=` are skipped.
pub open spec fn spec_next_option(tokens: Seq<Seq<u8>>, idx: int) -> (Option<(Seq<u8>, Seq<u8>)>, int)
    decreases tokens.len() - idx,
{
    if !(0 <= idx < tokens.len()) {
        (None, idx)
    } else {
        match spec_token_kv(tokens[idx]) {
            Some(kv) => (Some(kv), idx + 1),
            None => spec_next_option(tokens, idx + 1),
        }
    }
}

impl CommandLineOptionIter {
    /// The tokens being walked.
    pub closed spec fn spec_tokens(&self) -> Seq<Seq<u8>> {
        self.tokens.deep_view()
    }

    /// Index of the next token to inspect.
    pub closed spec fn spec_idx(&self) -> int {
        self.idx as int
    }

    /// The index stays within the tokens.
    pub closed spec fn wf(&self) -> bool {
        self.idx <= self.tokens@.len()
    }

    /// Yield the next `name=value` option of the command line.
    pub fn next(&mut self) -> (r: Option<CommandLineOption>)
        requires
            old(self).wf(),
        ensures
            final(self).wf(),
            final(self).spec_tokens() == old(self).spec_tokens(),
            ({
                let s = spec_next_option(old(self).spec_tokens(), old(self).spec_idx());
                final(self).spec_idx() == s.1 && (match r {
                    Some(o) => s.0 matches Some(kv) && o.name@ == kv.0 && o.value@ == kv.1,
                    None => s.0 is None,
                })
            }),
    {
        loop
            invariant
                self.wf(),
                self.spec_tokens() == old(self).spec_tokens(),
                spec_next_option(self.spec_tokens(), self.spec_idx()) == spec_next_option(
                    old(self).spec_tokens(),
                    old(self).spec_idx(),
                ),
            decreases self.spec_tokens().len() - self.spec_idx(),
        {
            if self.idx >= self.tokens.len() {
                return None;
            }
            let ghost toks = self.spec_tokens();
            let ghost i0 = self.spec_idx();
            let token = &self.tokens[self.idx];
            self.idx = self.idx + 1;
            let parts = split_from(token.as_slice(), 0, 61);
            proof {
                assert(token@.skip(0) =~= token@);
                assert(toks[i0] == token@);
                assert(parts.deep_view() == spec_split(token@, 61));
            }
            if parts.len() >= 2 {
                let ghost parts0 = parts.deep_view();
                let mut parts = parts;
                let name = parts.remove(0);
                let value = parts.remove(0);
                proof {
                    assert(name@ == parts0[0]);
                    assert(value@ == parts0[1]);
                    assert(spec_token_kv(toks[i0]) == Some((parts0[0], parts0[1])));
                }
                return Some(CommandLineOption { name, value });
            } else {
                proof {
                    assert(spec_token_kv(toks[i0]) is None);
                }
            }
        }
    }
}

impl BootConfig {
    /// The held command line bytes.
    pub closed spec fn spec_cmdline(&self) -> Seq<u8> {
        self.cmdline@
    }

    /// Construct a new instance of the configuration.
    pub fn new(s: &str) -> (r: BootConfig)
        ensures
            r.spec_cmdline() == s.spec_bytes(),
    {
        BootConfig { cmdline: vstd::slice::slice_to_vec(s.as_bytes()) }
    }

    /// Construct the configuration straight from command line bytes, as
    /// they arrive from the boot loader.
    pub fn from_bytes(cmdline: Vec<u8>) -> (r: BootConfig)
        ensures
            r.spec_cmdline() == cmdline@,
    {
        BootConfig { cmdline }
    }

    /// Return the raw whitespace-separated parts of the command line.
    pub fn cmdline_iter(&self) -> (r: Vec<Vec<u8>>)
        ensures
            r.deep_view() == spec_split(self.spec_cmdline(), 32),
    {
        let r = split_from(self.cmdline.as_slice(), 0, 32);
        proof {
            assert(self.cmdline@.skip(0) =~= self.cmdline@);
        }
        r
    }

    /// Iterate over the `name=value` pairs in the command line.
    pub fn cmdline_option_iter(&self) -> (r: CommandLineOptionIter)
        ensures
            r.wf(),
            r.spec_tokens() == spec_split(self.spec_cmdline(), 32),
            r.spec_idx() == 0,
    {
        CommandLineOptionIter { tokens: self.cmdline_iter(), idx: 0 }
    }

    /// Find a particular command line option by name.
    pub fn cmdline_option_find(&self, name: &str) -> (r: Option<CommandLineOption>)
        ensures
            ({
                let found = spec_find_option(
                    spec_split(self.spec_cmdline(), 32),
                    0,
                    name.spec_bytes(),
                );
                match r {
                    Some(o) => found matches Some(kv) && o.name@ == kv.0 && o.value@ == kv.1,
                    None => found is None,
                }
            }),
    {
        let tokens = self.cmdline_iter();
        let name_bytes = name.as_bytes();
        let mut idx: usize = 0;
        loop
            invariant
                idx <= tokens@.len(),
                tokens.deep_view() == spec_split(self.spec_cmdline(), 32),
                name_bytes@ == name.spec_bytes(),
                spec_find_option(tokens.deep_view(), idx as int, name_bytes@) == spec_find_option(
                    tokens.deep_view(),
                    0,
                    name_bytes@,
                ),
            decreases tokens@.len() - idx,
        {
            if idx >= tokens.len() {
                return None;
            }
            let ghost toks = tokens.deep_view();
            let ghost i0 = idx as int;
            let token = &tokens[idx];
            idx = idx + 1;
            let parts = split_from(token.as_slice(), 0, 61);
            proof {
                assert(token@.skip(0) =~= token@);
                assert(toks[i0] == token@);
                assert(parts.deep_view() == spec_split(token@, 61));
            }
            if parts.len() >= 2 {
                let ghost parts0 = parts.deep_view();
                let mut parts = parts;
                let opt_name = parts.remove(0);
                let value = parts.remove(0);
                proof {
                    assert(opt_name@ == parts0[0]);
                    assert(value@ == parts0[1]);
                    assert(spec_token_kv(toks[i0]) == Some((parts0[0], parts0[1])));
                }
                if bytes_eq(opt_name.as_slice(), name_bytes) {
                    return Some(CommandLineOption { name: opt_name, value });
                }
            } else {
                proof {
                    assert(spec_token_kv(toks[i0]) is None);
                }
            }
        }
    }

    /// Retrieve an option by integer value: the option's value is parsed
    /// with a default radix of 10, overridden to 16 by a `0x` prefix.
    pub fn cmdline_option_from_str<T: FromStrExt>(&self, name: &str) -> (r: Option<T>)
        ensures
            ({
                let found = spec_find_option(
                    spec_split(self.spec_cmdline(), 32),
                    0,
                    name.spec_bytes(),
                );
                match found {
                    Some(kv) => r == if crate::util::string::spec_has_hex_prefix(kv.1) {
                        T::spec_from_radix(kv.1.skip(2), 16)
                    } else {
                        T::spec_from_radix(kv.1, 10)
                    },
                    None => r is None,
                }
            }),
    {
        match self.cmdline_option_find(name) {
            Some(option) => T::from_str_prefix(option.value.as_slice()),
            None => None,
        }
    }
}

} // verus!
