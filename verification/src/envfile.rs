//! Loading an environment file through the external `.env` parser.
//!
//! The parser is a collaborator, not part of this crate's logic: given a file
//! path it reads the file and yields its `KEY=VALUE` pairs. Installing those
//! pairs is this crate's verified work: every pair is checked against what an
//! environment can accept before it is handed to an [`EnvSink`], the
//! injectable environment state, so a hostile file fails the load instead of
//! aborting the process.
use vstd::prelude::*;

verus! {

/// The error type of the external env-file parser, `dotenvy::Error` (a
/// missing or unreadable file, or a malformed line), carried unchanged so the
/// caller can report the cause.
#[verifier::external_type_specification]
#[verifier::external_body]
pub struct ExDotenvyError(dotenvy::Error);

/// Why a load failed.
#[derive(Debug)]
pub(crate) enum LoadFailure {
    /// The parser could not find, read or parse the file.
    Parse(dotenvy::Error),
    /// The named key's pair holds a character no environment accepts (a NUL,
    /// or `=` inside the key), so installing it is impossible.
    Unloadable { key: String },
}

/// Failure to load an environment file, wrapping the cause.
#[derive(Debug)]
pub struct EnvError(pub(crate) LoadFailure);

impl EnvError {
    /// Whether this failure is the parser's own: the file was missing,
    /// unreadable or malformed, and the parser's error is carried inside.
    pub closed spec fn is_parse_failure(&self) -> bool {
        self.0 is Parse
    }

    /// Whether this failure names a parsed pair that no environment accepts
    /// — the only failure besides the parser's own.
    pub open spec fn is_unloadable_pair(&self) -> bool {
        !self.is_parse_failure()
    }
}

/// A key an environment accepts: nonempty, free of `=` and of NUL.
pub open spec fn is_safe_env_key(k: Seq<char>) -> bool {
    k.len() > 0 && forall|i: int| 0 <= i < k.len() ==> k[i] != '=' && k[i] != '\0'
}

/// A value an environment accepts: free of NUL.
pub open spec fn is_safe_env_value(v: Seq<char>) -> bool {
    forall|i: int| 0 <= i < v.len() ==> v[i] != '\0'
}

/// Whether the pair is one an environment accepts.
pub open spec fn pair_is_safe(p: (String, String)) -> bool {
    is_safe_env_key(p.0@) && is_safe_env_value(p.1@)
}

/// Whether every pair of the sequence is one an environment accepts.
pub open spec fn all_pairs_safe(pairs: Seq<(String, String)>) -> bool {
    forall|j: int| 0 <= j < pairs.len() ==> pair_is_safe(#[trigger] pairs[j])
}

/// The pairs as their views, in the same order.
pub open spec fn pair_views(pairs: Seq<(String, String)>) -> Seq<(Seq<char>, Seq<char>)> {
    pairs.map_values(|p: (String, String)| (p.0@, p.1@))
}

/// The environment state a load installs into. The host adapter implements
/// it over the real process environment; [`RecordedEnv`] is an isolated
/// in-memory one. Installing a pair appends it to the installed history, so
/// a later pair with the same key overrides the earlier one, and later reads
/// of the key observe the installed value.
pub trait EnvSink {
    /// The pairs installed so far, in installation order. The default is the
    /// empty history: an implementor that keeps real state overrides it with
    /// its own model (as [`RecordedEnv`] does), and only such an implementor
    /// can meet `set_var`'s contract.
    open spec fn installed(&self) -> Seq<(Seq<char>, Seq<char>)> {
        Seq::empty()
    }

    /// Install one key/value pair.
    fn set_var(&mut self, key: &str, value: &str)
        requires
            is_safe_env_key(key@),
            is_safe_env_value(value@),
        ensures
            final(self).installed() == old(self).installed().push((key@, value@)),
    ;
}

/// An isolated environment: installed pairs are recorded, in order, in plain
/// memory instead of any process-wide state, so a caller (a test above all)
/// can observe a load without side effects.
pub struct RecordedEnv {
    vars: Vec<(String, String)>,
}

impl RecordedEnv {
    /// An environment with nothing installed.
    pub fn new() -> (r: Self)
        ensures
            r.installed() == Seq::<(Seq<char>, Seq<char>)>::empty(),
    {
        let r = RecordedEnv { vars: Vec::new() };
        proof {
            assert(r.installed() =~= Seq::<(Seq<char>, Seq<char>)>::empty());
        }
        r
    }

    /// The recorded pairs, in installation order.
    pub fn vars(&self) -> (r: &Vec<(String, String)>)
        ensures
            pair_views(r@) == self.installed(),
    {
        &self.vars
    }
}

impl EnvSink for RecordedEnv {
    closed spec fn installed(&self) -> Seq<(Seq<char>, Seq<char>)> {
        pair_views(self.vars@)
    }

    fn set_var(&mut self, key: &str, value: &str) {
        self.vars.push((key.to_owned(), value.to_owned()));
        proof {
            assert(self.installed() =~= old(self).installed().push((key@, value@)));
        }
    }
}

/// Whether `k` is a key an environment accepts.
pub(crate) fn str_is_safe_key(k: &str) -> (r: bool)
    ensures
        r == is_safe_env_key(k@),
{
    let len = k.unicode_len();
    if len == 0 {
        return false;
    }
    let mut i: usize = 0;
    while i < len
        invariant
            len == k@.len(),
            i <= len,
            forall|j: int| 0 <= j < i ==> k@[j] != '=' && k@[j] != '\0',
        decreases len - i,
    {
        let c = k.get_char(i);
        if c == '=' || c == '\0' {
            return false;
        }
        i += 1;
    }
    true
}

/// Whether `v` is a value an environment accepts.
pub(crate) fn str_is_safe_value(v: &str) -> (r: bool)
    ensures
        r == is_safe_env_value(v@),
{
    let len = v.unicode_len();
    let mut i: usize = 0;
    while i < len
        invariant
            len == v@.len(),
            i <= len,
            forall|j: int| 0 <= j < i ==> v@[j] != '\0',
        decreases len - i,
    {
        if v.get_char(i) == '\0' {
            return false;
        }
        i += 1;
    }
    true
}

/// Install the parsed pairs into `sink`, in order, each checked first: the
/// install succeeds exactly when every pair is one an environment accepts,
/// and then the sink has received exactly the pairs, in file order. On the
/// first unacceptable pair the load fails with an unloadable-pair error,
/// with exactly the pairs before it installed.
pub fn install_pairs<S: EnvSink>(pairs: &Vec<(String, String)>, sink: &mut S) -> (r: Result<
    (),
    EnvError,
>)
    ensures
        r is Ok <==> all_pairs_safe(pairs@),
        r is Ok ==> final(sink).installed() == old(sink).installed() + pair_views(pairs@),
        r matches Err(e) ==> e.is_unloadable_pair(),
        r is Err ==> exists|k: int|
            #![trigger pairs@[k]]
            0 <= k < pairs@.len() && !pair_is_safe(pairs@[k]) && (forall|j: int|
                0 <= j < k ==> pair_is_safe(#[trigger] pairs@[j]))
                && final(sink).installed() == old(sink).installed()
                + pair_views(pairs@.subrange(0, k)),
{
    let mut i: usize = 0;
    while i < pairs.len()
        invariant
            i <= pairs.len(),
            forall|j: int| 0 <= j < i ==> pair_is_safe(#[trigger] pairs@[j]),
            sink.installed() == old(sink).installed() + pair_views(pairs@.subrange(0, i as int)),
        decreases pairs.len() - i,
    {
        let key = pairs[i].0.as_str();
        let value = pairs[i].1.as_str();
        if !str_is_safe_key(key) || !str_is_safe_value(value) {
            return Err(EnvError(LoadFailure::Unloadable { key: pairs[i].0.clone() }));
        }
        sink.set_var(key, value);
        proof {
            assert(pair_is_safe(pairs@[i as int]));
            assert(pairs@.subrange(0, (i + 1) as int) =~= pairs@.subrange(0, i as int).push(
                pairs@[i as int],
            ));
            assert(pair_views(pairs@.subrange(0, i as int).push(pairs@[i as int])) =~= pair_views(
                pairs@.subrange(0, i as int),
            ).push((pairs@[i as int].0@, pairs@[i as int].1@)));
        }
        i += 1;
    }
    proof {
        assert(pairs@.subrange(0, pairs@.len() as int) =~= pairs@);
    }
    Ok(())
}

/// Relies on `dotenvy::from_filename_iter`: it locates the env file named
/// `filename` (for a relative name, searching the current directory and then
/// its ancestors), parses it, and yields its `KEY=VALUE` pairs in file
/// order; a `${NAME}` substitution in a value is resolved against the
/// process environment and the pairs already read. It only reads and parses:
/// nothing is installed anywhere by this call. A leading byte-order mark is
/// not stripped, so it reaches the first key.
#[verifier::external_body]
pub(crate) fn read_env_file(filename: &str) -> (r: Result<
    Vec<(String, String)>,
    dotenvy::Error,
>) {
    match dotenvy::from_filename_iter(filename) {
        Ok(iter) => iter.collect(),
        Err(e) => Err(e),
    }
}

} // verus!
