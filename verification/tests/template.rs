use yamori::template::process_template;

#[test]
fn single_branch_keeps_content_in_release_mode() {
    assert_eq!(
        process_template("cargo build {{#if release}}--release{{/if}}", true),
        "cargo build --release"
    );
}

#[test]
fn single_branch_drops_content_in_debug_mode() {
    assert_eq!(
        process_template("cargo build {{#if release}}--release{{/if}}", false),
        "cargo build "
    );
}

#[test]
fn single_branch_keeps_text_on_both_sides() {
    let t = "a{{#if release}}b{{/if}}c";
    assert_eq!(process_template(t, true), "abc");
    assert_eq!(process_template(t, false), "ac");
}

#[test]
fn two_branch_picks_exactly_one_side() {
    let t = "target/{{#if build.release}}release{{else}}debug{{/if}}/app";
    assert_eq!(process_template(t, true), "target/release/app");
    assert_eq!(process_template(t, false), "target/debug/app");
}

#[test]
fn text_without_markup_is_unchanged() {
    assert_eq!(process_template("echo hello", true), "echo hello");
    assert_eq!(process_template("echo hello", false), "echo hello");
    assert_eq!(process_template("", true), "");
    assert_eq!(process_template("{{ not markup }}", false), "{{ not markup }}");
}

#[test]
fn unclosed_single_branch_is_copied() {
    let t = "run {{#if release}}--release";
    assert_eq!(process_template(t, true), t);
    assert_eq!(process_template(t, false), t);
}

#[test]
fn unclosed_two_branch_is_copied() {
    let without_else = "x{{#if build.release}}a{{/if}}";
    assert_eq!(process_template(without_else, true), without_else);
    assert_eq!(process_template(without_else, false), without_else);
    let without_end = "x{{#if build.release}}a{{else}}b";
    assert_eq!(process_template(without_end, true), without_end);
    assert_eq!(process_template(without_end, false), without_end);
}

#[test]
fn every_closed_region_is_resolved() {
    let t = "{{#if release}}a{{/if}}-{{#if release}}b{{/if}}-{{#if release}}c";
    assert_eq!(process_template(t, true), "a-b-{{#if release}}c");
    assert_eq!(process_template(t, false), "--{{#if release}}c");
    let u = "{{#if build.release}}r{{else}}d{{/if}}/{{#if build.release}}R{{else}}D{{/if}}";
    assert_eq!(process_template(u, true), "r/R");
    assert_eq!(process_template(u, false), "d/D");
}

#[test]
fn single_branch_form_takes_precedence() {
    let t = "{{#if build.release}}r{{else}}d{{/if}} {{#if release}}x{{/if}}";
    assert_eq!(process_template(t, true), "{{#if build.release}}r{{else}}d{{/if}} x");
    assert_eq!(process_template(t, false), "{{#if build.release}}r{{else}}d{{/if}} ");
}

#[test]
fn empty_regions_vanish() {
    assert_eq!(process_template("{{#if release}}{{/if}}", true), "");
    assert_eq!(process_template("{{#if build.release}}{{else}}{{/if}}", false), "");
}

#[test]
fn text_beyond_ascii_is_kept() {
    let t = "größe {{#if release}}schnell ✓{{/if}} ende";
    assert_eq!(process_template(t, true), "größe schnell ✓ ende");
    assert_eq!(process_template(t, false), "größe  ende");
}

#[test]
fn resolving_twice_changes_nothing_more() {
    for t in [
        "cargo build {{#if release}}--release{{/if}}",
        "target/{{#if build.release}}release{{else}}debug{{/if}}/app",
        "plain",
        "open {{#if release}}never closed",
    ] {
        for flag in [true, false] {
            let once = process_template(t, flag);
            assert_eq!(process_template(&once, flag), once);
        }
    }
}

#[test]
fn nested_markup_is_not_settled_by_one_pass() {
    let t = "{{#if release}}a{{#if release}}b{{/if}}c{{/if}}";
    let once = process_template(t, true);
    assert_eq!(once, "a{{#if release}}bc{{/if}}");
    assert_eq!(process_template(&once, true), "abc");
}
