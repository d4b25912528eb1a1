use commit_suggest::{create_prompt, COMMIT_MESSAGE_GUIDELINE};

#[test]
fn prompt_wraps_diff_in_fenced_block() {
    let diff = "diff --git a/x b/x\n+added line";
    let p = create_prompt(diff);
    let expected = format!(
        "{}\n\n---\n\n## Git Diff\n\n```diff\n{}\n```",
        COMMIT_MESSAGE_GUIDELINE, diff
    );
    assert_eq!(p, expected);
    assert!(p.contains("```diff\ndiff --git a/x b/x\n+added line\n```"));
}

#[test]
fn prompt_of_empty_diff() {
    let p = create_prompt("");
    assert!(p.starts_with(COMMIT_MESSAGE_GUIDELINE));
    assert!(p.ends_with("\n\n---\n\n## Git Diff\n\n```diff\n\n```"));
    assert!(p.len() >= COMMIT_MESSAGE_GUIDELINE.len());
}

#[test]
fn prompt_keeps_fences_in_diff_verbatim() {
    let diff = "```\n  tabs\tand spaces  \n```";
    let p = create_prompt(diff);
    assert!(p.contains(diff));
    assert!(p.len() >= diff.len() + COMMIT_MESSAGE_GUIDELINE.len());
}

#[test]
fn prompt_is_the_same_twice() {
    let diff = "-old\n+new";
    assert_eq!(create_prompt(diff), create_prompt(diff));
}

#[test]
fn guideline_names_the_convention() {
    assert!(COMMIT_MESSAGE_GUIDELINE.contains("Conventional Commits"));
    assert!(COMMIT_MESSAGE_GUIDELINE.contains("BREAKING-CHANGE MUST be synonymous with BREAKING CHANGE"));
}
