use manuscript::services::analyst::{
    first_header_candidate, CompiledRegex, MarkupKind, RegexMatch, RegexRule,
    RegexRuleCollection, TagApplyRules, TagLookup, TextAnalyzer, TAG_NAME_ACCENT, TAG_NAME_BOLD,
    TAG_NAME_CODE_BLOCK, TAG_NAME_ITALIC,
};

fn named(l: &TagLookup) -> Option<(&'static str, i32, i32)> {
    match l {
        TagLookup::ByName(n, s, e) => Some((*n, *s, *e)),
        _ => None,
    }
}

fn margin(l: &TagLookup) -> Option<(i32, i32, i32, i32)> {
    match l {
        TagLookup::ByMarginIndent(m, i, s, e) => Some((*m, *i, *s, *e)),
        _ => None,
    }
}

#[test]
fn invalid_pattern_does_not_compile() {
    assert!(CompiledRegex::new("(unclosed").is_none());
    let re = CompiledRegex::new("a+b").unwrap();
    assert_eq!(re.pattern(), "a+b");
}

#[test]
fn rule_collection_lists_all_rules_in_order() {
    let collection = RegexRuleCollection::new();
    let names: Vec<&str> = collection.rules().iter().map(|r| r.name()).collect();
    assert_eq!(
        names,
        vec![
            "HEADER",
            "BOLD",
            "ITALIC_ASTERISK",
            "ITALIC_UNDERSCORE",
            "BOLD_ITALIC",
            "STRIKETHROUGH",
            "LINK",
            "HEADER_UNDER",
            "HORIZONTAL_RULE",
            "FOOTNOTE_ID",
            "FOOTNOTE",
            "SUBSCRIPT",
            "SUPERSCRIPT",
            "CODE_BLOCK",
            "CODE",
        ]
    );
    assert_eq!(RegexRuleCollection::default().rules().len(), 15);
}

#[test]
fn header_is_indented_and_offered() {
    let analyzer = TextAnalyzer::new();
    let rules = analyzer.analyze_text("# Title").unwrap();
    assert!(!rules.is_empty());
    let first = &rules[0];
    assert!(first.is_header());
    assert_eq!(first.header_candidate().unwrap(), "Title");
    let lookups = first.rules();
    assert_eq!(lookups.len(), 3);
    assert_eq!(margin(&lookups[0]), Some((-2, 0, 0, 7)));
    assert_eq!(named(&lookups[1]), Some((TAG_NAME_ACCENT, 0, 7)));
    assert_eq!(named(&lookups[2]), Some((TAG_NAME_BOLD, 0, 7)));
    assert_eq!(first_header_candidate(&rules), Some(String::from("Title")));
}

#[test]
fn deeper_header_gets_larger_negative_margin() {
    let analyzer = TextAnalyzer::new();
    let rules = analyzer.analyze_text("### Deep").unwrap();
    assert_eq!(margin(&rules[0].rules()[0]), Some((-4, 0, 0, 8)));
    assert_eq!(first_header_candidate(&rules), Some(String::from("Deep")));
}

#[test]
fn bold_and_italic_are_tagged() {
    let analyzer = TextAnalyzer::default();
    let rules = analyzer.analyze_text("**bold**").unwrap();
    assert_eq!(rules[0].rules().len(), 1);
    assert_eq!(named(&rules[0].rules()[0]), Some((TAG_NAME_BOLD, 0, 8)));
    assert!(rules
        .iter()
        .any(|r| r.rules().iter().any(|l| named(l) == Some((TAG_NAME_ITALIC, 1, 7)))));
    assert_eq!(first_header_candidate(&rules), None);
}

#[test]
fn code_block_is_marked_and_indented() {
    let analyzer = TextAnalyzer::new();
    let text = "```\ncode\n```";
    let rules = analyzer.analyze_text(text).unwrap();
    let block = rules
        .iter()
        .find(|r| named(&r.rules()[0]).map(|(n, _, _)| n) == Some(TAG_NAME_CODE_BLOCK))
        .unwrap();
    let (_, s, e) = named(&block.rules()[0]).unwrap();
    assert_eq!(margin(&block.rules()[1]), Some((0, 1, s, e)));
}

#[test]
fn plain_text_has_no_markup() {
    let analyzer = TextAnalyzer::new();
    let rules = analyzer.analyze_text("just some words").unwrap();
    assert!(rules.is_empty());
    let buffer = analyzer.analyze_buffer("just some words");
    assert!(buffer.is_empty());
}

#[test]
fn analyze_buffer_counts_matches_rule_by_rule() {
    let analyzer = TextAnalyzer::new();
    let rules = analyzer.analyze_buffer("**ab** and **cd**");
    let bold: Vec<_> = rules
        .iter()
        .filter_map(|r| named(&r.rules()[0]))
        .filter(|(n, _, _)| *n == TAG_NAME_BOLD)
        .collect();
    assert_eq!(bold, vec![(TAG_NAME_BOLD, 0, 6), (TAG_NAME_BOLD, 11, 17)]);
}

#[test]
fn rule_maps_a_match() {
    let re = CompiledRegex::new(r"~~(?P<text>.*?\S.*?)~~").unwrap();
    let rule = RegexRule::new_from_slice("STRIKETHROUGH", re, MarkupKind::Strikethrough);
    assert_eq!(rule.name(), "STRIKETHROUGH");
    let text = "a ~~gone~~ b";
    let m = RegexMatch::new(rule.regex(), text, (2, 10), "STRIKETHROUGH");
    assert_eq!(m.matched(), (2, 10));
    assert_eq!(m.start(), 2);
    assert_eq!(m.end(), 10);
    assert_eq!(m.tag_name(), "STRIKETHROUGH");
    let caps = m.captures().unwrap();
    assert_eq!(caps[0].as_deref(), Some("~~gone~~"));
    assert_eq!(caps[1].as_deref(), Some("gone"));
    let mapped = rule.map(&m);
    assert!(!mapped.is_header());
    assert_eq!(named(&mapped.rules()[0]), Some(("strikethrough", 2, 10)));
}

#[test]
fn header_rule_maps_its_groups() {
    let re = CompiledRegex::new(r"(?m)^ {0,3}(?P<level>#{1,6}) (?P<text>[^\n]+)$").unwrap();
    let rule = RegexRule::new(String::from("HEADER"), re, MarkupKind::Header);
    let text = "intro\n## Part two";
    let m = RegexMatch::new(rule.regex(), text, (6, 17), "HEADER");
    let mapped = rule.map(&m);
    assert_eq!(mapped.header_candidate().unwrap(), "Part two");
    assert_eq!(margin(&mapped.rules()[0]), Some((-3, 0, 6, 17)));
}

#[test]
fn tag_apply_rules_accessors() {
    let mut rules = TagApplyRules::new(vec![TagLookup::ByName(TAG_NAME_BOLD, 0, 1)]);
    assert!(!rules.is_header());
    rules.set_header_candidate(Some(String::from("H")));
    assert!(rules.is_header());
    rules.rules_mut().push(TagLookup::ByMarginIndent(1, 2, 3, 4));
    assert_eq!(rules.rules().len(), 2);
    assert_eq!(first_header_candidate(&vec![TagApplyRules::new(Vec::new()), rules]), Some(String::from("H")));
}
