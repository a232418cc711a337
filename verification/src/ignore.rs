//! Ignore rules: a list of glob patterns compiled into one predicate on paths.

use vstd::prelude::*;

verus! {

/// A single parsed glob pattern of the `globset` crate.
#[verifier::external_type_specification]
#[verifier::external_body]
pub struct ExGlob(globset::Glob);

/// The `globset` crate's accumulator of parsed patterns.
#[verifier::external_type_specification]
#[verifier::external_body]
pub struct ExGlobSetBuilder(globset::GlobSetBuilder);

/// The `globset` crate's compiled matcher over a list of patterns.
#[verifier::external_type_specification]
#[verifier::external_body]
pub struct ExGlobSet(globset::GlobSet);

/// The `globset` crate's error for a pattern that cannot be parsed or compiled.
#[verifier::external_type_specification]
#[verifier::external_body]
pub struct ExGlobError(globset::Error);

/// Whether `globset::Glob::new` accepts the pattern text.
pub uninterp spec fn glob_well_formed(pattern: Seq<char>) -> bool;

/// The pattern text that a parsed glob was made from (`Glob::glob`).
pub uninterp spec fn glob_text(glob: globset::Glob) -> Seq<char>;

/// The pattern texts that a builder holds, in the order they were added.
pub uninterp spec fn builder_texts(builder: globset::GlobSetBuilder) -> Seq<Seq<char>>;

/// Whether a compiled set answers that the path matches (`GlobSet::is_match`).
pub uninterp spec fn set_matches(set: globset::GlobSet, path: Seq<char>) -> bool;

/// Whether `GlobSetBuilder::build` succeeds on a builder holding these patterns.
pub uninterp spec fn glob_set_compiles(patterns: Seq<Seq<char>>) -> bool;

/// Whether the glob with this pattern text, under default options, matches the path.
pub uninterp spec fn glob_matches(pattern: Seq<char>, path: Seq<char>) -> bool;

/// The texts of a sequence of strings.
pub open spec fn texts(strings: Seq<String>) -> Seq<Seq<char>> {
    Seq::new(strings.len(), |i: int| strings[i]@)
}

/// Whether some pattern of the list matches the path.
pub open spec fn any_glob_matches(patterns: Seq<Seq<char>>, path: Seq<char>) -> bool {
    exists|i: int| 0 <= i < patterns.len() && #[trigger] glob_matches(patterns[i], path)
}

/// Whether every pattern of the list is a well-formed glob.
pub open spec fn all_well_formed(patterns: Seq<Seq<char>>) -> bool {
    forall|i: int| 0 <= i < patterns.len() ==> #[trigger] glob_well_formed(patterns[i])
}

/// Calls `globset::Glob::new`. Trusted: the call succeeds exactly on the
/// patterns named well-formed, and the glob it returns remembers the text it
/// was parsed from.
#[verifier::external_body]
fn parse_glob(pattern: &str) -> (r: Result<globset::Glob, globset::Error>)
    ensures
        r is Ok <==> glob_well_formed(pattern@),
        r matches Ok(g) ==> glob_text(g) == pattern@,
{
    globset::Glob::new(pattern)
}

/// Calls `globset::GlobSetBuilder::new`. Trusted: the new builder holds no pattern.
#[verifier::external_body]
fn new_builder() -> (r: globset::GlobSetBuilder)
    ensures
        builder_texts(r) == Seq::<Seq<char>>::empty(),
{
    globset::GlobSetBuilder::new()
}

/// Calls `globset::GlobSetBuilder::add`. Trusted: the glob is appended to
/// what the builder held.
#[verifier::external_body]
fn add_glob(builder: &mut globset::GlobSetBuilder, glob: globset::Glob)
    ensures
        builder_texts(*final(builder)) == builder_texts(*old(builder)).push(glob_text(glob)),
{
    builder.add(glob);
}

/// Calls `globset::GlobSetBuilder::build`. Trusted: whether it succeeds
/// depends on the patterns alone, and the set it returns matches a path
/// exactly when some glob of the builder matches it.
#[verifier::external_body]
fn build_set(builder: &globset::GlobSetBuilder) -> (r: Result<globset::GlobSet, globset::Error>)
    ensures
        r is Ok <==> glob_set_compiles(builder_texts(*builder)),
        r matches Ok(s) ==> forall|path: Seq<char>| #[trigger]
            set_matches(s, path) == (exists|i: int|
                0 <= i < builder_texts(*builder).len() && #[trigger] glob_matches(
                    builder_texts(*builder)[i],
                    path,
                )),
{
    builder.build()
}

/// Calls `globset::GlobSet::is_match`. Trusted: the answer depends on the
/// set and the path's text alone.
#[verifier::external_body]
fn set_is_match(set: &globset::GlobSet, path: &str) -> (r: bool)
    ensures
        r == set_matches(*set, path@),
{
    set.is_match(path)
}

/// Why a list of ignore patterns could not be compiled.
#[derive(Debug, Clone, Copy, PartialEq, Eq, Structural)]
pub enum PatternError {
    /// The pattern at this position is not a valid glob; no earlier one is invalid.
    InvalidGlob { index: usize },
    /// Every pattern is a valid glob, but the set could not be compiled.
    SetRejected,
}

/// A compiled set of ignore patterns: a pure predicate on paths.
pub struct IgnoreMatcher {
    patterns: Vec<String>,
    set: globset::GlobSet,
}

impl IgnoreMatcher {
    /// The pattern texts that the matcher was compiled from, in order.
    pub closed spec fn patterns(&self) -> Seq<Seq<char>> {
        texts(self.patterns@)
    }

    /// Whether the matcher ignores the path: some pattern matches it.
    pub open spec fn ignores(&self, path: Seq<char>) -> bool {
        any_glob_matches(self.patterns(), path)
    }

    /// The invariant of every matcher: the compiled set answers for the
    /// patterns that the matcher keeps.
    #[verifier::type_invariant]
    spec fn well_formed(&self) -> bool {
        forall|path: Seq<char>| #[trigger]
            set_matches(self.set, path) == any_glob_matches(texts(self.patterns@), path)
    }

    /// Compiles the patterns, in order, into one matcher.
    ///
    /// Fails on the first pattern that is not a valid glob, or, when all are
    /// valid, if the set as a whole cannot be compiled.
    pub fn compile(patterns: &Vec<String>) -> (r: Result<IgnoreMatcher, PatternError>)
        ensures
            match r {
                Ok(m) => {
                    &&& all_well_formed(texts(patterns@))
                    &&& glob_set_compiles(texts(patterns@))
                    &&& m.patterns() == texts(patterns@)
                },
                Err(PatternError::InvalidGlob { index }) => {
                    &&& index < patterns.len()
                    &&& !glob_well_formed(patterns[index as int]@)
                    &&& all_well_formed(texts(patterns@).take(index as int))
                },
                Err(PatternError::SetRejected) => {
                    &&& all_well_formed(texts(patterns@))
                    &&& !glob_set_compiles(texts(patterns@))
                },
            },
    {
        let mut builder = new_builder();
        let mut kept: Vec<String> = Vec::new();
        let mut i: usize = 0;
        while i < patterns.len()
            invariant
                i <= patterns.len(),
                builder_texts(builder) == texts(patterns@).take(i as int),
                texts(kept@) == texts(patterns@).take(i as int),
                all_well_formed(texts(patterns@).take(i as int)),
            decreases patterns.len() - i,
        {
            match parse_glob(patterns[i].as_str()) {
                Ok(glob) => {
                    let ghost before = texts(kept@);
                    add_glob(&mut builder, glob);
                    kept.push(patterns[i].clone());
                    assert(texts(kept@) =~= before.push(patterns[i as int]@));
                    assert(texts(patterns@).take(i as int + 1) =~= texts(patterns@).take(
                        i as int,
                    ).push(patterns[i as int]@));
                },
                Err(_) => {
                    return Err(PatternError::InvalidGlob { index: i });
                },
            }
            i += 1;
        }
        assert(texts(patterns@).take(i as int) =~= texts(patterns@));
        match build_set(&builder) {
            Ok(set) => Ok(IgnoreMatcher { patterns: kept, set }),
            Err(_) => Err(PatternError::SetRejected),
        }
    }

    /// How many patterns the matcher was compiled from.
    pub fn pattern_count(&self) -> (r: usize)
        ensures
            r == self.patterns().len(),
    {
        self.patterns.len()
    }

    /// Whether the path matches any of the ignore patterns.
    pub fn matches(&self, path: &str) -> (r: bool)
        ensures
            r == self.ignores(path@),
    {
        proof {
            use_type_invariant(self);
        }
        set_is_match(&self.set, path)
    }
}

/// Whether the path is excluded by the ignore rules.
pub fn is_ignored(path: &str, matcher: &IgnoreMatcher) -> (r: bool)
    ensures
        r == matcher.ignores(path@),
{
    matcher.matches(path)
}

/// A matcher compiled from no pattern ignores nothing.
pub proof fn lemma_no_patterns_ignore_nothing(matcher: IgnoreMatcher, path: Seq<char>)
    requires
        matcher.patterns().len() == 0,
    ensures
        !matcher.ignores(path),
{
}

} // verus!
