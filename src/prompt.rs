use vstd::prelude::*;

verus! {

/// The convention that the model is asked to follow, sent verbatim ahead of the diff.
pub const COMMIT_MESSAGE_GUIDELINE: &'static str = r#"
Please generate a concise yet appropriate commit message based on the provided Git diff, following Conventional Commits.
The key words “MUST”, “MUST NOT”, “REQUIRED”, “SHALL”, “SHALL NOT”, “SHOULD”, “SHOULD NOT”, “RECOMMENDED”, “MAY”, and “OPTIONAL” in this document are to be interpreted as described in RFC 2119.

1. Commits MUST be prefixed with a type, which consists of a noun, feat, fix, etc., followed by the OPTIONAL scope, OPTIONAL !, and REQUIRED terminal colon and space.
2. The type feat MUST be used when a commit adds a new feature to your application or library.
3. The type fix MUST be used when a commit represents a bug fix for your application.
4. A scope MAY be provided after a type. A scope MUST consist of a noun describing a section of the codebase surrounded by parenthesis, e.g., fix(parser):
5. A description MUST immediately follow the colon and space after the type/scope prefix. The description is a short summary of the code changes, e.g., fix: array parsing issue when multiple spaces were contained in string.
6. A longer commit body MAY be provided after the short description, providing additional contextual information about the code changes. The body MUST begin one blank line after the description.
7. A commit body is free-form and MAY consist of any number of newline separated paragraphs.
8. One or more footers MAY be provided one blank line after the body. Each footer MUST consist of a word token, followed by either a :<space> or <space># separator, followed by a string value (this is inspired by the git trailer convention).
9. A footer’s token MUST use - in place of whitespace characters, e.g., Acked-by (this helps differentiate the footer section from a multi-paragraph body). An exception is made for BREAKING CHANGE, which MAY also be used as a token.
10. A footer’s value MAY contain spaces and newlines, and parsing MUST terminate when the next valid footer token/separator pair is observed.
11. Breaking changes MUST be indicated in the type/scope prefix of a commit, or as an entry in the footer.
12. If included as a footer, a breaking change MUST consist of the uppercase text BREAKING CHANGE, followed by a colon, space, and description, e.g., BREAKING CHANGE: environment variables now take precedence over config files.
13. If included in the type/scope prefix, breaking changes MUST be indicated by a ! immediately before the :. If ! is used, BREAKING CHANGE: MAY be omitted from the footer section, and the commit description SHALL be used to describe the breaking change.
14. Types other than feat and fix MAY be used in your commit messages, e.g., docs: update ref docs.
15. The units of information that make up Conventional Commits MUST NOT be treated as case sensitive by implementors, with the exception of BREAKING CHANGE which MUST be uppercase.
16. BREAKING-CHANGE MUST be synonymous with BREAKING CHANGE, when used as a token in a footer.
    "#;

/// Text between the convention and the diff: a section break, a heading and
/// the opening of a fenced `diff` block.
pub const DIFF_OPENING: &'static str = "\n\n---\n\n## Git Diff\n\n```diff\n";

/// Text that closes the fenced block after the diff.
pub const DIFF_CLOSING: &'static str = "\n```";

/// The convention's text.
pub open spec fn guideline() -> Seq<char> {
    COMMIT_MESSAGE_GUIDELINE@
}

/// The prompt for a diff: the convention, the opening, the diff unchanged, the closing.
pub open spec fn prompt_of(diff: Seq<char>) -> Seq<char> {
    guideline() + DIFF_OPENING@ + diff + DIFF_CLOSING@
}

/// Builds the prompt that asks for a commit message describing `diff`.
pub fn create_prompt(diff: &str) -> (r: String)
    ensures
        r@ == prompt_of(diff@),
{
    let mut r = String::from_str(COMMIT_MESSAGE_GUIDELINE);
    r.append(DIFF_OPENING);
    r.append(diff);
    r.append(DIFF_CLOSING);
    r
}

/// Every prompt holds its diff verbatim, right after the opening of the fenced
/// block and right before its closing, and is at least as long as the diff and
/// the convention together.
pub proof fn lemma_prompt_holds_diff(diff: Seq<char>)
    ensures
        ({
            let p = prompt_of(diff);
            let at: int = (guideline().len() + DIFF_OPENING@.len()) as int;
            let end: int = at + diff.len();
            &&& p.subrange(at, end) == diff
            &&& p.subrange(guideline().len() as int, at) == DIFF_OPENING@
            &&& p.subrange(end, p.len() as int) == DIFF_CLOSING@
            &&& p.len() >= diff.len() + guideline().len()
        }),
{
    let p = prompt_of(diff);
    let at: int = (guideline().len() + DIFF_OPENING@.len()) as int;
    let end: int = at + diff.len();
    assert(p.subrange(at, end) =~= diff);
    assert(p.subrange(guideline().len() as int, at) =~= DIFF_OPENING@);
    assert(p.subrange(end, p.len() as int) =~= DIFF_CLOSING@);
}

/// Building the prompt twice from the same diff gives the same text.
pub proof fn lemma_prompt_deterministic(d1: Seq<char>, d2: Seq<char>)
    requires
        d1 == d2,
    ensures
        prompt_of(d1) == prompt_of(d2),
{
}

} // verus!
