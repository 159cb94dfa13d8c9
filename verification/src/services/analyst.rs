use vstd::prelude::*;

use vstd::string::StringSliceAdditionalSpecFns;

verus! {

// ---------------------------------------------------------------------------
// Names of the text tags that formatting rules refer to.
// ---------------------------------------------------------------------------

pub const TAG_NAME_ACCENT: &'static str = "accent";
pub const TAG_NAME_BOLD: &'static str = "bold";
pub const TAG_NAME_ITALIC: &'static str = "italic";
pub const TAG_NAME_BOLD_ITALIC: &'static str = "bold_italic";
pub const TAG_NAME_STRIKETHROUGH: &'static str = "strikethrough";
pub const TAG_NAME_CENTER: &'static str = "center";
pub const TAG_NAME_LINK_COLOR_TEXT: &'static str = "link_color_text";
pub const TAG_NAME_GRAY_TEXT: &'static str = "gray_text";
pub const TAG_NAME_CODE_TEXT: &'static str = "code_text";
pub const TAG_NAME_CODE_BLOCK: &'static str = "code_block";
pub const TAG_NAME_SUBSCRIPT: &'static str = "subscript";
pub const TAG_NAME_SUPERSCRIPT: &'static str = "superscript";

// ---------------------------------------------------------------------------
// `regex::Regex`
// ---------------------------------------------------------------------------

#[verifier::external_type_specification]
#[verifier::external_body]
pub struct ExRegex(regex::Regex);

/// Whether `regex::Regex::new` accepts the pattern (its syntax is valid and
/// the compiled program fits the default size limit).
pub uninterp spec fn regex_compiles(pattern: Seq<char>) -> bool;

/// The byte ranges, start and end, of the successive non-overlapping
/// leftmost-first matches of `pattern` in `text`, as `Regex::find_iter` yields them.
pub uninterp spec fn regex_find_spans(pattern: Seq<char>, text: Seq<char>) -> Seq<(usize, usize)>;

/// The text of each capture group (group 0 being the whole match) of the
/// first match of `pattern` in the part of `text` between bytes `start` and
/// `end`, as `Regex::captures` finds them; `None` when there is no match.
pub uninterp spec fn regex_captures(pattern: Seq<char>, text: Seq<char>, start: usize, end: usize) -> Option<Seq<Option<Seq<char>>>>;

/// A compiled regular expression together with the pattern it was compiled from.
pub struct CompiledRegex {
    pattern: String,
    inner: regex::Regex,
}

impl View for CompiledRegex {
    type V = Seq<char>;

    /// The pattern the expression was compiled from.
    closed spec fn view(&self) -> Seq<char> {
        self.pattern@
    }
}

/// `regex::Regex::new`: compiles `pattern`, keeping the pattern beside the
/// compiled expression. Whether compilation succeeds is named, not stated.
#[verifier::external_body]
pub(crate) fn compile_regex(pattern: &str) -> (r: Option<CompiledRegex>)
    ensures
        r is Some <==> regex_compiles(pattern@),
        r matches Some(c) ==> c@ == pattern@,
{
    match regex::Regex::new(pattern) {
        Ok(inner) => Some(CompiledRegex { pattern: pattern.to_string(), inner }),
        Err(_) => None,
    }
}

impl CompiledRegex {
    /// Compiles `pattern`; `None` when the regex crate refuses it.
    pub fn new(pattern: &str) -> (r: Option<CompiledRegex>)
        ensures
            r is Some <==> regex_compiles(pattern@),
            r matches Some(c) ==> c@ == pattern@,
    {
        compile_regex(pattern)
    }

    /// The pattern the expression was compiled from.
    pub fn pattern(&self) -> (r: &str)
        ensures
            r@ == self@,
    {
        self.pattern.as_str()
    }
}

/// `Regex::find_iter`, each match taken by its byte range. The regex
/// documentation guarantees that a match starts no later than it ends, and
/// that both ends lie on character boundaries of the text.
#[verifier::external_body]
pub(crate) fn find_spans(re: &CompiledRegex, text: &str) -> (r: Vec<(usize, usize)>)
    ensures
        r@ == regex_find_spans(re@, text@),
        forall|i: int|
            0 <= i < r@.len() ==> {
                &&& (#[trigger] r@[i]).0 <= r@[i].1 <= text.spec_bytes().len()
                &&& vstd::utf8::is_char_boundary(text.spec_bytes(), r@[i].0 as int)
                &&& vstd::utf8::is_char_boundary(text.spec_bytes(), r@[i].1 as int)
            },
{
    re.inner.find_iter(text).map(|m| (m.start(), m.end())).collect()
}

/// The texts of optional capture groups.
pub open spec fn captures_view(c: Option<Vec<Option<String>>>) -> Option<Seq<Option<Seq<char>>>> {
    match c {
        Some(v) => Some(v@.map_values(|g: Option<String>| match g {
            Some(s) => Some(s@),
            None => None,
        })),
        None => None,
    }
}

/// `Regex::captures` on the part of `text` between bytes `start` and `end`,
/// each group taken by its text. A group's text is a part of the searched
/// text, so its UTF-8 length is at most `end - start`.
#[verifier::external_body]
pub(crate) fn captures_in(re: &CompiledRegex, text: &str, start: usize, end: usize) -> (r: Option<
    Vec<Option<String>>,
>)
    requires
        start <= end <= text.spec_bytes().len(),
        vstd::utf8::is_char_boundary(text.spec_bytes(), start as int),
        vstd::utf8::is_char_boundary(text.spec_bytes(), end as int),
    ensures
        captures_view(r) == regex_captures(re@, text@, start, end),
        r matches Some(groups) ==> forall|i: int|
            0 <= i < groups@.len() ==> (#[trigger] groups@[i] matches Some(t)
                ==> vstd::utf8::encode_utf8(t@).len() <= end - start),
{
    re.inner.captures(&text[start..end]).map(
        |c| c.iter().map(|g| g.map(|m| m.as_str().to_string())).collect(),
    )
}

// ---------------------------------------------------------------------------
// Formatting rules
// ---------------------------------------------------------------------------

/// Where and how a text tag applies: a named tag over a byte range, or a
/// margin/indent tag (margin level, indent level) over a byte range.
#[derive(Clone, Copy, Debug)]
pub enum TagLookup {
    ByName(&'static str, i32, i32),
    ByMarginIndent(i32, i32, i32, i32),
}

/// The tags a piece of markup asks for, and, for a header, its text.
#[derive(Clone, Debug)]
pub struct TagApplyRules {
    header_candidate: Option<String>,
    lookups: Vec<TagLookup>,
}

/// What a set of tag rules holds.
pub struct TagApplyRulesView {
    pub header_candidate: Option<Seq<char>>,
    pub lookups: Seq<TagLookup>,
}

impl View for TagApplyRules {
    type V = TagApplyRulesView;

    closed spec fn view(&self) -> TagApplyRulesView {
        TagApplyRulesView {
            header_candidate: match self.header_candidate {
                Some(s) => Some(s@),
                None => None,
            },
            lookups: self.lookups@,
        }
    }
}

impl TagApplyRules {
    pub fn new(lookups: Vec<TagLookup>) -> (r: TagApplyRules)
        ensures
            r@ == (TagApplyRulesView { header_candidate: None, lookups: lookups@ }),
    {
        TagApplyRules { header_candidate: None, lookups }
    }

    pub fn rules(&self) -> (r: &Vec<TagLookup>)
        ensures
            r@ == self@.lookups,
    {
        &self.lookups
    }

    pub fn rules_mut(&mut self) -> (r: &mut Vec<TagLookup>)
        ensures
            r@ == old(self)@.lookups,
            final(self)@ == (TagApplyRulesView {
                header_candidate: old(self)@.header_candidate,
                lookups: final(r)@,
            }),
    {
        &mut self.lookups
    }

    pub fn is_header(&self) -> (r: bool)
        ensures
            r == self@.header_candidate is Some,
    {
        self.header_candidate.is_some()
    }

    pub fn header_candidate(&self) -> (r: Option<&String>)
        ensures
            match r {
                Some(s) => self@.header_candidate == Some(s@),
                None => self@.header_candidate is None,
            },
    {
        self.header_candidate.as_ref()
    }

    pub fn set_header_candidate(&mut self, value: Option<String>)
        ensures
            final(self)@ == (TagApplyRulesView {
                header_candidate: match value {
                    Some(s) => Some(s@),
                    None => None,
                },
                lookups: old(self)@.lookups,
            }),
    {
        self.header_candidate = value;
    }
}

/// The markup constructs the analyzer recognizes.
#[derive(Clone, Copy, Debug, PartialEq, Eq, Structural)]
pub enum MarkupKind {
    Header,
    Bold,
    ItalicAsterisk,
    ItalicUnderscore,
    BoldItalic,
    Strikethrough,
    Link,
    HeaderUnder,
    HorizontalRule,
    FootnoteId,
    Footnote,
    Subscript,
    Superscript,
    CodeBlock,
    Code,
}

/// The one named tag a construct asks for, for the constructs that ask for one.
pub open spec fn kind_tag(kind: MarkupKind) -> &'static str {
    match kind {
        MarkupKind::Bold => TAG_NAME_BOLD,
        MarkupKind::ItalicAsterisk => TAG_NAME_ITALIC,
        MarkupKind::ItalicUnderscore => TAG_NAME_ITALIC,
        MarkupKind::BoldItalic => TAG_NAME_BOLD_ITALIC,
        MarkupKind::Strikethrough => TAG_NAME_STRIKETHROUGH,
        MarkupKind::Link => TAG_NAME_LINK_COLOR_TEXT,
        MarkupKind::HeaderUnder => TAG_NAME_BOLD,
        MarkupKind::HorizontalRule => TAG_NAME_CENTER,
        MarkupKind::FootnoteId => TAG_NAME_LINK_COLOR_TEXT,
        MarkupKind::Footnote => TAG_NAME_GRAY_TEXT,
        MarkupKind::Subscript => TAG_NAME_SUBSCRIPT,
        MarkupKind::Superscript => TAG_NAME_SUPERSCRIPT,
        MarkupKind::Code => TAG_NAME_CODE_TEXT,
        MarkupKind::CodeBlock => TAG_NAME_CODE_BLOCK,
        MarkupKind::Header => TAG_NAME_BOLD,
    }
}

/// A header's groups re-found in its own match: the match has a first group
/// (the run of '#').
pub open spec fn header_groups_found(caps: Option<Seq<Option<Seq<char>>>>) -> bool {
    caps matches Some(groups) && groups.len() > 1 && groups[1] is Some
}

/// The tags asked for by the match of a construct of kind `kind` over bytes
/// `start..end`, where `caps` are the groups re-found in the matched text.
/// A header is indented one level per '#' to the left (margin level
/// -(number of '#') - 1), accented and bold, and offers its text as a header
/// candidate; a code block is marked and indented one level; every other
/// construct asks for its one tag.
pub open spec fn markup_rules(
    kind: MarkupKind,
    start: i32,
    end: i32,
    caps: Option<Seq<Option<Seq<char>>>>,
) -> TagApplyRulesView {
    match kind {
        MarkupKind::Header => {
            let groups = caps.unwrap();
            let level = groups[1].unwrap();
            let margin = -(vstd::utf8::encode_utf8(level).len() as int) - 1;
            TagApplyRulesView {
                header_candidate: if groups.len() > 2 {
                    groups[2]
                } else {
                    None
                },
                lookups: seq![
                    TagLookup::ByMarginIndent(margin as i32, 0, start, end),
                    TagLookup::ByName(TAG_NAME_ACCENT, start, end),
                    TagLookup::ByName(TAG_NAME_BOLD, start, end),
                ],
            }
        },
        MarkupKind::CodeBlock => TagApplyRulesView {
            header_candidate: None,
            lookups: seq![
                TagLookup::ByName(TAG_NAME_CODE_BLOCK, start, end),
                TagLookup::ByMarginIndent(0, 1, start, end),
            ],
        },
        _ => TagApplyRulesView {
            header_candidate: None,
            lookups: seq![TagLookup::ByName(kind_tag(kind), start, end)],
        },
    }
}

/// Each construct other than a header or a code block is marked with one
/// tag over exactly its match, and no header text: `**x**`, `__x__` and a
/// setext header in bold, `*x*` and `_x_` in italic, `***x***` in bold italic,
/// `~~x~~` struck through, links and footnote references in the link color,
/// footnotes in gray, `~x~` and `^x^` lowered and raised, `` `x` `` as code,
/// a horizontal rule centered.
pub proof fn lemma_markup_tag_names(kind: MarkupKind, start: i32, end: i32, caps: Option<Seq<Option<Seq<char>>>>)
    requires
        kind != MarkupKind::Header,
        kind != MarkupKind::CodeBlock,
    ensures
        markup_rules(kind, start, end, caps).header_candidate is None,
        markup_rules(kind, start, end, caps).lookups.len() == 1,
        markup_rules(kind, start, end, caps).lookups[0] matches TagLookup::ByName(name, s, e)
            && s == start && e == end && name@ == match kind {
            MarkupKind::Bold => "bold"@,
            MarkupKind::ItalicAsterisk => "italic"@,
            MarkupKind::ItalicUnderscore => "italic"@,
            MarkupKind::BoldItalic => "bold_italic"@,
            MarkupKind::Strikethrough => "strikethrough"@,
            MarkupKind::Link => "link_color_text"@,
            MarkupKind::HeaderUnder => "bold"@,
            MarkupKind::HorizontalRule => "center"@,
            MarkupKind::FootnoteId => "link_color_text"@,
            MarkupKind::Footnote => "gray_text"@,
            MarkupKind::Subscript => "subscript"@,
            MarkupKind::Superscript => "superscript"@,
            MarkupKind::Code => "code_text"@,
            _ => Seq::<char>::empty(),
        },
{
}

/// Emphasis written with underscores is tagged exactly as emphasis written
/// with asterisks, and emphasis is not tagged as strong emphasis.
pub proof fn lemma_emphasis_markers_alike(start: i32, end: i32, caps: Option<Seq<Option<Seq<char>>>>)
    ensures
        markup_rules(MarkupKind::ItalicUnderscore, start, end, caps) == markup_rules(
            MarkupKind::ItalicAsterisk,
            start,
            end,
            caps,
        ),
        markup_rules(MarkupKind::ItalicAsterisk, start, end, caps) != markup_rules(
            MarkupKind::Bold,
            start,
            end,
            caps,
        ),
{
    reveal_strlit("italic");
    reveal_strlit("bold");
    assert(markup_rules(MarkupKind::ItalicAsterisk, start, end, caps).lookups[0] != markup_rules(
        MarkupKind::Bold, start, end, caps).lookups[0]) by {
        assert(TAG_NAME_ITALIC@[0] != TAG_NAME_BOLD@[0]);
    }
}

/// A match of a rule's expression in a text.
pub struct RegexMatch<'a> {
    regex: &'a CompiledRegex,
    text: &'a str,
    start: usize,
    end: usize,
    tag_name: &'a str,
}

impl<'a> RegexMatch<'a> {
    pub closed spec fn wf(self) -> bool {
        &&& self.start <= self.end <= self.text.spec_bytes().len()
        &&& self.end <= i32::MAX
        &&& vstd::utf8::is_char_boundary(self.text.spec_bytes(), self.start as int)
        &&& vstd::utf8::is_char_boundary(self.text.spec_bytes(), self.end as int)
    }

    pub closed spec fn spec_regex(self) -> &'a CompiledRegex {
        self.regex
    }

    pub closed spec fn spec_text(self) -> Seq<char> {
        self.text@
    }

    pub closed spec fn spec_tag_name(self) -> &'a str {
        self.tag_name
    }

    pub closed spec fn spec_start(self) -> usize {
        self.start
    }

    pub closed spec fn spec_end(self) -> usize {
        self.end
    }

    /// The match of `regex` over bytes `span.0..span.1` of `text`.
    pub fn new(regex: &'a CompiledRegex, text: &'a str, span: (usize, usize), tag_name: &'a str) -> (r: RegexMatch<'a>)
        requires
            span.0 <= span.1 <= text.spec_bytes().len(),
            span.1 <= i32::MAX,
            vstd::utf8::is_char_boundary(text.spec_bytes(), span.0 as int),
            vstd::utf8::is_char_boundary(text.spec_bytes(), span.1 as int),
        ensures
            r.wf(),
            r.spec_regex() == regex,
            r.spec_text() == text@,
            r.spec_start() == span.0,
            r.spec_end() == span.1,
            r.spec_tag_name() == tag_name,
    {
        RegexMatch { regex, text, start: span.0, end: span.1, tag_name }
    }

    pub fn regex(&self) -> (r: &'a CompiledRegex)
        ensures
            r == self.spec_regex(),
    {
        self.regex
    }

    /// The byte range of the match.
    pub fn matched(&self) -> (r: (usize, usize))
        ensures
            r == (self.spec_start(), self.spec_end()),
    {
        (self.start, self.end)
    }

    pub fn tag_name(&self) -> (r: &str)
        ensures
            r == self.spec_tag_name(),
    {
        self.tag_name
    }

    pub fn start(&self) -> (r: i32)
        requires
            self.wf(),
        ensures
            r == self.spec_start(),
    {
        self.start as i32
    }

    pub fn end(&self) -> (r: i32)
        requires
            self.wf(),
        ensures
            r == self.spec_end(),
    {
        self.end as i32
    }

    /// The groups of the rule's expression re-found in the matched text.
    pub fn captures(&self) -> (r: Option<Vec<Option<String>>>)
        requires
            self.wf(),
        ensures
            captures_view(r) == regex_captures(
                self.spec_regex()@,
                self.spec_text(),
                self.spec_start(),
                self.spec_end(),
            ),
            r matches Some(groups) ==> forall|i: int|
                0 <= i < groups@.len() ==> (#[trigger] groups@[i] matches Some(t)
                    ==> vstd::utf8::encode_utf8(t@).len() <= self.spec_end() - self.spec_start()),
    {
        captures_in(self.regex, self.text, self.start, self.end)
    }
}

/// What a rule holds: its name, the pattern of its expression, and the
/// construct it recognizes.
pub struct RegexRuleView {
    pub name: Seq<char>,
    pub pattern: Seq<char>,
    pub kind: MarkupKind,
}

/// A named formatting rule: an expression and the construct it recognizes.
pub struct RegexRule {
    name: String,
    regex: CompiledRegex,
    map_kind: MarkupKind,
}

impl View for RegexRule {
    type V = RegexRuleView;

    closed spec fn view(&self) -> RegexRuleView {
        RegexRuleView { name: self.name@, pattern: self.regex@, kind: self.map_kind }
    }
}

impl RegexRule {
    pub fn new(name: String, regex: CompiledRegex, map: MarkupKind) -> (r: RegexRule)
        ensures
            r@ == (RegexRuleView { name: name@, pattern: regex@, kind: map }),
    {
        RegexRule { name, regex, map_kind: map }
    }

    pub fn new_from_slice(name: &'static str, regex: CompiledRegex, map: MarkupKind) -> (r: RegexRule)
        ensures
            r@ == (RegexRuleView { name: name@, pattern: regex@, kind: map }),
    {
        Self::new(name.to_string(), regex, map)
    }

    pub fn name(&self) -> (r: &str)
        ensures
            r@ == self@.name,
    {
        self.name.as_str()
    }

    pub fn regex(&self) -> (r: &CompiledRegex)
        ensures
            r@ == self@.pattern,
    {
        &self.regex
    }

    /// The tags asked for by a match of this rule's expression.
    pub fn map(&self, matched: &RegexMatch) -> (r: TagApplyRules)
        requires
            matched.wf(),
            matched.spec_regex()@ == self@.pattern,
            self@.kind == MarkupKind::Header ==> header_groups_found(
                regex_captures(
                    self@.pattern,
                    matched.spec_text(),
                    matched.spec_start(),
                    matched.spec_end(),
                ),
            ),
        ensures
            r@ == markup_rules(
                self@.kind,
                matched.spec_start() as i32,
                matched.spec_end() as i32,
                regex_captures(
                    self@.pattern,
                    matched.spec_text(),
                    matched.spec_start(),
                    matched.spec_end(),
                ),
            ),
    {
        let start: i32 = matched.start();
        let end: i32 = matched.end();
        match self.map_kind {
            MarkupKind::Header => {
                let caps = matched.captures();
                match caps {
                    Some(groups) => {
                        let ghost gv = groups@;
                        let level_len: usize = match &groups[1] {
                            Some(level) => level.as_str().len(),
                            None => 0,
                        };
                        assert(level_len <= end - start);
                        let margin: i32 = -(level_len as i32) - 1;
                        let mut lookups: Vec<TagLookup> = Vec::new();
                        lookups.push(TagLookup::ByMarginIndent(margin, 0, start, end));
                        lookups.push(TagLookup::ByName(TAG_NAME_ACCENT, start, end));
                        lookups.push(TagLookup::ByName(TAG_NAME_BOLD, start, end));
                        let mut rules = TagApplyRules::new(lookups);
                        if groups.len() > 2 {
                            let content: Option<String> = match &groups[2] {
                                Some(t) => Some(t.clone()),
                                None => None,
                            };
                            rules.set_header_candidate(content);
                        }
                        proof {
                            let expected = markup_rules(
                                MarkupKind::Header,
                                start,
                                end,
                                captures_view(Some(groups)),
                            );
                            assert(rules@.lookups =~= expected.lookups);
                        }
                        rules
                    },
                    None => {
                        // ruled out by the precondition
                        TagApplyRules::new(Vec::new())
                    },
                }
            },
            MarkupKind::CodeBlock => {
                let mut lookups: Vec<TagLookup> = Vec::new();
                lookups.push(TagLookup::ByName(TAG_NAME_CODE_BLOCK, start, end));
                lookups.push(TagLookup::ByMarginIndent(0, 1, start, end));
                let r = TagApplyRules::new(lookups);
                assert(r@.lookups =~= markup_rules(MarkupKind::CodeBlock, start, end, None).lookups);
                r
            },
            kind => {
                let tag: &'static str = match kind {
                    MarkupKind::Bold => TAG_NAME_BOLD,
                    MarkupKind::ItalicAsterisk => TAG_NAME_ITALIC,
                    MarkupKind::ItalicUnderscore => TAG_NAME_ITALIC,
                    MarkupKind::BoldItalic => TAG_NAME_BOLD_ITALIC,
                    MarkupKind::Strikethrough => TAG_NAME_STRIKETHROUGH,
                    MarkupKind::Link => TAG_NAME_LINK_COLOR_TEXT,
                    MarkupKind::HeaderUnder => TAG_NAME_BOLD,
                    MarkupKind::HorizontalRule => TAG_NAME_CENTER,
                    MarkupKind::FootnoteId => TAG_NAME_LINK_COLOR_TEXT,
                    MarkupKind::Footnote => TAG_NAME_GRAY_TEXT,
                    MarkupKind::Subscript => TAG_NAME_SUBSCRIPT,
                    MarkupKind::Superscript => TAG_NAME_SUPERSCRIPT,
                    MarkupKind::Code => TAG_NAME_CODE_TEXT,
                    MarkupKind::CodeBlock => TAG_NAME_CODE_BLOCK,
                    MarkupKind::Header => TAG_NAME_BOLD,
                };
                let mut lookups: Vec<TagLookup> = Vec::new();
                lookups.push(TagLookup::ByName(tag, start, end));
                let r = TagApplyRules::new(lookups);
                assert(r@.lookups =~= markup_rules(kind, start, end, None).lookups);
                r
            },
        }
    }
}


// ---------------------------------------------------------------------------
// The rule collection
// ---------------------------------------------------------------------------

/// A rule as listed: its name, its pattern and the construct it recognizes.
pub struct RuleSpec {
    pub name: Seq<char>,
    pub pattern: Seq<char>,
    pub kind: MarkupKind,
}

pub open spec fn rule_spec(name: &str, pattern: &str, kind: MarkupKind) -> RuleSpec {
    RuleSpec { name: name@, pattern: pattern@, kind }
}

/// The formatting rules of the analyzer, in the order they are applied.
pub open spec fn markup_rule_specs() -> Seq<RuleSpec> {
    seq![
        rule_spec("HEADER", r"(?m)^ {0,3}(?P<level>#{1,6}) (?P<text>[^\n]+)$", MarkupKind::Header),
        rule_spec("BOLD", r"(\*\*|__)[^\s*](?P<text>.*?\S.*?)(\*\*|__)", MarkupKind::Bold),
        rule_spec("ITALIC_ASTERISK", r"\*[^\s\*](?P<text>.*?\S?.*?)\*", MarkupKind::ItalicAsterisk),
        rule_spec("ITALIC_UNDERSCORE", r"_[^\s_](?P<text>.*?\S?.*?)_", MarkupKind::ItalicUnderscore),
        rule_spec(
            "BOLD_ITALIC",
            r"(\*\*\*|___)[^\s*](?P<text>.*?\S.*?)(\*\*\*|___)",
            MarkupKind::BoldItalic,
        ),
        rule_spec("STRIKETHROUGH", r"~~(?P<text>.*?\S.*?)~~", MarkupKind::Strikethrough),
        rule_spec("LINK", r#"\[(?P<text>.*?)\]\((?P<url>.+?)(?: "(?P<title>.+)")?\)"#, MarkupKind::Link),
        rule_spec(
            "HEADER_UNDER",
            r"(?m)(?:^\n*|\n\n)(?P<text>[^\s].+)\n {0,3}[=\-]+(?: +?\n|$)",
            MarkupKind::HeaderUnder,
        ),
        rule_spec(
            "HORIZONTAL_RULE",
            r"(?:^|\n{2,})(?P<symbols> {0,3}[*\-_]{3,} *)(?:\n{2,}|$)",
            MarkupKind::HorizontalRule,
        ),
        rule_spec("FOOTNOTE_ID", r"\[\^(?P<id>(?P<text>[^\s]+))\]", MarkupKind::FootnoteId),
        rule_spec(
            "FOOTNOTE",
            r"(?:^\n*|\n\n)\[\^(?P<id>[^\s]+)\]:\s?(?P<content>(?:[^\n]+)?)",
            MarkupKind::Footnote,
        ),
        rule_spec("SUBSCRIPT", r"~[^\n*].*~", MarkupKind::Subscript),
        rule_spec("SUPERSCRIPT", r"\^[^\n*].*\^", MarkupKind::Superscript),
        rule_spec(
            "CODE_BLOCK",
            r"(?ms)^ {0,3}(?P<block>([`~]{3})(?P<text>.+?)`{3})(?:\s+?$|$)",
            MarkupKind::CodeBlock,
        ),
        rule_spec("CODE", r"(?P<ticks_start>`+)(?P<content>.+?)(?P<ticks_end>`+)", MarkupKind::Code),
    ]
}

/// The listed rules whose pattern compiles, as rules, in order.
pub open spec fn compiled_rules(specs: Seq<RuleSpec>) -> Seq<RegexRuleView>
    decreases specs.len(),
{
    if specs.len() == 0 {
        Seq::empty()
    } else {
        let rest = compiled_rules(specs.drop_last());
        let last = specs.last();
        if regex_compiles(last.pattern) {
            rest.push(RegexRuleView { name: last.name, pattern: last.pattern, kind: last.kind })
        } else {
            rest
        }
    }
}

/// The analyzer's rules as an executable table.
fn markup_rule_table() -> (r: Vec<(&'static str, &'static str, MarkupKind)>)
    ensures
        r@.len() == markup_rule_specs().len(),
        forall|i: int|
            0 <= i < r@.len() ==> rule_spec((#[trigger] r@[i]).0, r@[i].1, r@[i].2)
                == markup_rule_specs()[i],
{
    let mut t: Vec<(&'static str, &'static str, MarkupKind)> = Vec::new();
    t.push(("HEADER", r"(?m)^ {0,3}(?P<level>#{1,6}) (?P<text>[^\n]+)$", MarkupKind::Header));
    t.push(("BOLD", r"(\*\*|__)[^\s*](?P<text>.*?\S.*?)(\*\*|__)", MarkupKind::Bold));
    t.push(("ITALIC_ASTERISK", r"\*[^\s\*](?P<text>.*?\S?.*?)\*", MarkupKind::ItalicAsterisk));
    t.push(("ITALIC_UNDERSCORE", r"_[^\s_](?P<text>.*?\S?.*?)_", MarkupKind::ItalicUnderscore));
    t.push(
        ("BOLD_ITALIC", r"(\*\*\*|___)[^\s*](?P<text>.*?\S.*?)(\*\*\*|___)", MarkupKind::BoldItalic),
    );
    t.push(("STRIKETHROUGH", r"~~(?P<text>.*?\S.*?)~~", MarkupKind::Strikethrough));
    t.push(("LINK", r#"\[(?P<text>.*?)\]\((?P<url>.+?)(?: "(?P<title>.+)")?\)"#, MarkupKind::Link));
    t.push(
        (
            "HEADER_UNDER",
            r"(?m)(?:^\n*|\n\n)(?P<text>[^\s].+)\n {0,3}[=\-]+(?: +?\n|$)",
            MarkupKind::HeaderUnder,
        ),
    );
    t.push(
        (
            "HORIZONTAL_RULE",
            r"(?:^|\n{2,})(?P<symbols> {0,3}[*\-_]{3,} *)(?:\n{2,}|$)",
            MarkupKind::HorizontalRule,
        ),
    );
    t.push(("FOOTNOTE_ID", r"\[\^(?P<id>(?P<text>[^\s]+))\]", MarkupKind::FootnoteId));
    t.push(
        (
            "FOOTNOTE",
            r"(?:^\n*|\n\n)\[\^(?P<id>[^\s]+)\]:\s?(?P<content>(?:[^\n]+)?)",
            MarkupKind::Footnote,
        ),
    );
    t.push(("SUBSCRIPT", r"~[^\n*].*~", MarkupKind::Subscript));
    t.push(("SUPERSCRIPT", r"\^[^\n*].*\^", MarkupKind::Superscript));
    t.push(
        (
            "CODE_BLOCK",
            r"(?ms)^ {0,3}(?P<block>([`~]{3})(?P<text>.+?)`{3})(?:\s+?$|$)",
            MarkupKind::CodeBlock,
        ),
    );
    t.push(("CODE", r"(?P<ticks_start>`+)(?P<content>.+?)(?P<ticks_end>`+)", MarkupKind::Code));
    t
}

/// The formatting rules of the analyzer.
pub struct RegexRuleCollection {
    rules: Vec<RegexRule>,
}

impl View for RegexRuleCollection {
    type V = Seq<RegexRuleView>;

    closed spec fn view(&self) -> Seq<RegexRuleView> {
        self.rules@.map_values(|r: RegexRule| r@)
    }
}

impl RegexRuleCollection {
    /// Adds the rule `name` when `re_content` compiles; a pattern that does
    /// not compile adds nothing.
    fn create_regex(
        collection: &mut Vec<RegexRule>,
        name: &str,
        re_content: &str,
        map: MarkupKind,
    )
        ensures
            final(collection)@.map_values(|r: RegexRule| r@) == if regex_compiles(re_content@) {
                old(collection)@.map_values(|r: RegexRule| r@).push(
                    RegexRuleView { name: name@, pattern: re_content@, kind: map },
                )
            } else {
                old(collection)@.map_values(|r: RegexRule| r@)
            },
    {
        match compile_regex(re_content) {
            Some(regex) => {
                collection.push(RegexRule::new(name.to_string(), regex, map));
                assert(final(collection)@.map_values(|r: RegexRule| r@) =~= old(
                    collection,
                )@.map_values(|r: RegexRule| r@).push(
                    RegexRuleView { name: name@, pattern: re_content@, kind: map },
                ));
            },
            None => {},
        }
    }

    /// The analyzer's rules, in order, keeping those whose pattern compiles.
    pub fn new() -> (r: RegexRuleCollection)
        ensures
            r@ == compiled_rules(markup_rule_specs()),
    {
        let table = markup_rule_table();
        let mut regexes: Vec<RegexRule> = Vec::new();
        let mut i: usize = 0;
        while i < table.len()
            invariant
                table@.len() == markup_rule_specs().len(),
                forall|j: int|
                    0 <= j < table@.len() ==> rule_spec((#[trigger] table@[j]).0, table@[j].1, table@[j].2)
                        == markup_rule_specs()[j],
                0 <= i <= table@.len(),
                regexes@.map_values(|r: RegexRule| r@) == compiled_rules(
                    markup_rule_specs().take(i as int),
                ),
            decreases table@.len() - i,
        {
            let (name, pattern, kind) = table[i];
            proof {
                assert(markup_rule_specs().take(i as int + 1).drop_last() =~= markup_rule_specs().take(
                    i as int,
                ));
                assert(rule_spec(table@[i as int].0, table@[i as int].1, table@[i as int].2)
                    == markup_rule_specs()[i as int]);
            }
            Self::create_regex(&mut regexes, name, pattern, kind);
            i = i + 1;
        }
        assert(markup_rule_specs().take(table@.len() as int) =~= markup_rule_specs());
        let r = RegexRuleCollection { rules: regexes };
        r
    }

    pub fn rules(&self) -> (r: &Vec<RegexRule>)
        ensures
            r@.map_values(|x: RegexRule| x@) == self@,
    {
        &self.rules
    }
}

impl Default for RegexRuleCollection {
    fn default() -> (r: RegexRuleCollection)
        ensures
            r@ == compiled_rules(markup_rule_specs()),
    {
        Self::new()
    }
}


// ---------------------------------------------------------------------------
// The analyzer
// ---------------------------------------------------------------------------

/// The tag rules one formatting rule yields on a text: one per match of its
/// expression, in the order of the matches.
pub open spec fn rule_analysis(rule: RegexRuleView, text: Seq<char>) -> Seq<TagApplyRulesView> {
    let spans = regex_find_spans(rule.pattern, text);
    Seq::new(
        spans.len(),
        |j: int|
            markup_rules(
                rule.kind,
                spans[j].0 as i32,
                spans[j].1 as i32,
                regex_captures(rule.pattern, text, spans[j].0, spans[j].1),
            ),
    )
}

/// The tag rules a list of formatting rules yields on a text: those of the
/// first rule, then those of the second, and so on.
pub open spec fn text_analysis(rules: Seq<RegexRuleView>, text: Seq<char>) -> Seq<TagApplyRulesView>
    decreases rules.len(),
{
    if rules.len() == 0 {
        Seq::empty()
    } else {
        text_analysis(rules.drop_last(), text) + rule_analysis(rules.last(), text)
    }
}

/// Every match of a rule ends within `i32` offsets, and every header match
/// re-finds its groups in its own text: the analysis of `text` is defined.
pub open spec fn analysis_defined(rules: Seq<RegexRuleView>, text: Seq<char>) -> bool {
    forall|i: int, j: int|
        0 <= i < rules.len() && 0 <= j < regex_find_spans(rules[i].pattern, text).len() ==> {
            let sp = #[trigger] regex_find_spans(rules[i].pattern, text)[j];
            &&& sp.1 <= i32::MAX
            &&& rules[i].kind == MarkupKind::Header ==> header_groups_found(
                regex_captures(rules[i].pattern, text, sp.0, sp.1),
            )
        }
}

/// Finds the markup of a text and the tags it asks for.
pub struct TextAnalyzer {
    markup_regex: RegexRuleCollection,
}

impl View for TextAnalyzer {
    type V = Seq<RegexRuleView>;

    closed spec fn view(&self) -> Seq<RegexRuleView> {
        self.markup_regex@
    }
}

impl TextAnalyzer {
    pub fn new() -> (r: TextAnalyzer)
        ensures
            r@ == compiled_rules(markup_rule_specs()),
    {
        TextAnalyzer { markup_regex: RegexRuleCollection::new() }
    }

    /// The tag rules the analyzer's formatting rules yield on `text`, rule
    /// after rule, match after match.
    pub fn analyze_buffer(&self, text: &str) -> (r: Vec<TagApplyRules>)
        requires
            analysis_defined(self@, text@),
        ensures
            r@.map_values(|t: TagApplyRules| t@) == text_analysis(self@, text@),
    {
        let rules = self.markup_regex.rules();
        let ghost rv = self@;
        let mut results: Vec<TagApplyRules> = Vec::new();
        let mut i: usize = 0;
        while i < rules.len()
            invariant
                rv == self@,
                rv == rules@.map_values(|x: RegexRule| x@),
                analysis_defined(rv, text@),
                0 <= i <= rules@.len(),
                results@.map_values(|t: TagApplyRules| t@) == text_analysis(rv.take(i as int), text@),
            decreases rules@.len() - i,
        {
            let rule = &rules[i];
            let tag_name = rule.name();
            let re = rule.regex();
            let spans = find_spans(re, text);
            let ghost before = results@.map_values(|t: TagApplyRules| t@);
            let ghost ra = rule_analysis(rv[i as int], text@);
            assert(rv[i as int] == rule@);
            let mut j: usize = 0;
            while j < spans.len()
                invariant
                    rv == rules@.map_values(|x: RegexRule| x@),
                    analysis_defined(rv, text@),
                    0 <= i < rules@.len(),
                    rule == &rules[i as int],
                    rv[i as int] == rule@,
                    re@ == rule@.pattern,
                    spans@ == regex_find_spans(re@, text@),
                    forall|k: int|
                        0 <= k < spans@.len() ==> {
                            &&& (#[trigger] spans@[k]).0 <= spans@[k].1 <= text.spec_bytes().len()
                            &&& vstd::utf8::is_char_boundary(text.spec_bytes(), spans@[k].0 as int)
                            &&& vstd::utf8::is_char_boundary(text.spec_bytes(), spans@[k].1 as int)
                        },
                    ra == rule_analysis(rv[i as int], text@),
                    0 <= j <= spans@.len(),
                    results@.map_values(|t: TagApplyRules| t@) == before + ra.take(j as int),
                decreases spans@.len() - j,
            {
                proof {
                    assert(regex_find_spans(rv[i as int].pattern, text@)[j as int] == spans@[j as int]);
                }
                let matched = RegexMatch::new(re, text, spans[j], tag_name);
                let new_values = rule.map(&matched);
                let ghost prev = results@;
                results.push(new_values);
                proof {
                    assert(ra[j as int] == new_values@);
                    assert(results@.map_values(|t: TagApplyRules| t@) =~= prev.map_values(
                        |t: TagApplyRules| t@,
                    ).push(new_values@));
                    assert(ra.take(j as int + 1) =~= ra.take(j as int).push(ra[j as int]));
                    assert(results@.map_values(|t: TagApplyRules| t@) =~= before + ra.take(
                        j as int + 1,
                    ));
                }
                j = j + 1;
            }
            proof {
                assert(ra.take(spans@.len() as int) =~= ra);
                assert(rv.take(i as int + 1).drop_last() =~= rv.take(i as int));
            }
            i = i + 1;
        }
        assert(rv.take(rules@.len() as int) =~= rv);
        results
    }

    /// Whether the analysis of `text` is defined: every match ends within
    /// `i32` offsets and every header match re-finds its groups.
    fn analysis_is_defined(&self, text: &str) -> (r: bool)
        ensures
            r == analysis_defined(self@, text@),
    {
        let rules = self.markup_regex.rules();
        let ghost rv = self@;
        let mut i: usize = 0;
        while i < rules.len()
            invariant
                rv == self@,
                rv == rules@.map_values(|x: RegexRule| x@),
                0 <= i <= rules@.len(),
                forall|a: int, b: int|
                    0 <= a < i && 0 <= b < regex_find_spans(rv[a].pattern, text@).len() ==> {
                        let sp = #[trigger] regex_find_spans(rv[a].pattern, text@)[b];
                        &&& sp.1 <= i32::MAX
                        &&& rv[a].kind == MarkupKind::Header ==> header_groups_found(
                            regex_captures(rv[a].pattern, text@, sp.0, sp.1),
                        )
                    },
            decreases rules@.len() - i,
        {
            let rule = &rules[i];
            let re = rule.regex();
            let spans = find_spans(re, text);
            assert(rv[i as int] == rule@);
            let mut j: usize = 0;
            while j < spans.len()
                invariant
                    rv == self@,
                    rv == rules@.map_values(|x: RegexRule| x@),
                    0 <= i < rules@.len(),
                    rule == &rules[i as int],
                    rv[i as int] == rule@,
                    re@ == rule@.pattern,
                    spans@ == regex_find_spans(re@, text@),
                    forall|k: int|
                        0 <= k < spans@.len() ==> {
                            &&& (#[trigger] spans@[k]).0 <= spans@[k].1 <= text.spec_bytes().len()
                            &&& vstd::utf8::is_char_boundary(text.spec_bytes(), spans@[k].0 as int)
                            &&& vstd::utf8::is_char_boundary(text.spec_bytes(), spans@[k].1 as int)
                        },
                    0 <= j <= spans@.len(),
                    forall|a: int, b: int|
                        0 <= a < i && 0 <= b < regex_find_spans(rv[a].pattern, text@).len() ==> {
                            let sp = #[trigger] regex_find_spans(rv[a].pattern, text@)[b];
                            &&& sp.1 <= i32::MAX
                            &&& rv[a].kind == MarkupKind::Header ==> header_groups_found(
                                regex_captures(rv[a].pattern, text@, sp.0, sp.1),
                            )
                        },
                    forall|b: int|
                        0 <= b < j ==> {
                            let sp = #[trigger] spans@[b];
                            &&& sp.1 <= i32::MAX
                            &&& rv[i as int].kind == MarkupKind::Header ==> header_groups_found(
                                regex_captures(rv[i as int].pattern, text@, sp.0, sp.1),
                            )
                        },
                decreases spans@.len() - j,
            {
                let (start, end) = spans[j];
                if end > 2147483647usize {
                    assert(!analysis_defined(rv, text@)) by {
                        assert(regex_find_spans(rv[i as int].pattern, text@)[j as int]
                            == spans@[j as int]);
                    }
                    return false;
                }
                if rule.map_kind == MarkupKind::Header {
                    let caps = captures_in(re, text, start, end);
                    let found: bool = match &caps {
                        Some(groups) => groups.len() > 1 && groups[1].is_some(),
                        None => false,
                    };
                    assert(found == header_groups_found(
                        regex_captures(rv[i as int].pattern, text@, start, end),
                    )) by {
                        match &caps {
                            Some(groups) => {
                                let gv = captures_view(caps).unwrap();
                                assert(gv.len() == groups@.len());
                                if groups@.len() > 1 {
                                    assert(gv[1] is Some == groups@[1] is Some);
                                }
                            },
                            None => {},
                        }
                    }
                    if !found {
                        assert(!analysis_defined(rv, text@)) by {
                            assert(regex_find_spans(rv[i as int].pattern, text@)[j as int]
                                == spans@[j as int]);
                        }
                        return false;
                    }
                }
                j = j + 1;
            }
            proof {
                assert forall|a: int, b: int|
                    0 <= a < i + 1 && 0 <= b < regex_find_spans(rv[a].pattern, text@).len() implies {
                    let sp = #[trigger] regex_find_spans(rv[a].pattern, text@)[b];
                    &&& sp.1 <= i32::MAX
                    &&& rv[a].kind == MarkupKind::Header ==> header_groups_found(
                        regex_captures(rv[a].pattern, text@, sp.0, sp.1),
                    )
                } by {
                    if a == i {
                        assert(spans@[b] == regex_find_spans(rv[a].pattern, text@)[b]);
                    }
                }
            }
            i = i + 1;
        }
        true
    }

    /// The tag rules the analyzer's formatting rules yield on `text`, or
    /// `None` where the analysis is not defined (a match ending beyond `i32`
    /// offsets, or a header whose groups are not re-found in its own text).
    pub fn analyze_text(&self, text: &str) -> (r: Option<Vec<TagApplyRules>>)
        ensures
            r is Some <==> analysis_defined(self@, text@),
            r matches Some(v) ==> v@.map_values(|t: TagApplyRules| t@) == text_analysis(
                self@,
                text@,
            ),
    {
        if self.analysis_is_defined(text) {
            Some(self.analyze_buffer(text))
        } else {
            None
        }
    }
}

impl Default for TextAnalyzer {
    fn default() -> (r: TextAnalyzer)
        ensures
            r@ == compiled_rules(markup_rule_specs()),
    {
        Self::new()
    }
}


/// The header text of the first rules of `rules` that offer one, if any.
pub open spec fn first_header(rules: Seq<TagApplyRulesView>) -> Option<Seq<char>>
    decreases rules.len(),
{
    if rules.len() == 0 {
        None
    } else if rules[0].header_candidate is Some {
        rules[0].header_candidate
    } else {
        first_header(rules.drop_first())
    }
}

/// The header announced is that of the first rules offering one: when
/// `rules[i]` offers a header text and no rules before it do, that text is
/// announced; when none offers one, none is announced.
pub proof fn lemma_first_header_is_earliest(rules: Seq<TagApplyRulesView>, i: int)
    ensures
        (forall|j: int| 0 <= j < rules.len() ==> (#[trigger] rules[j]).header_candidate is None)
            ==> first_header(rules) is None,
        0 <= i < rules.len() && rules[i].header_candidate is Some && (forall|j: int|
            0 <= j < i ==> (#[trigger] rules[j]).header_candidate is None) ==> first_header(rules)
            == rules[i].header_candidate,
    decreases rules.len(),
{
    if rules.len() > 0 {
        let rest = rules.drop_first();
        assert forall|j: int| 0 <= j < rest.len() implies #[trigger] rest[j] == rules[j + 1] by {}
        if i > 0 {
            lemma_first_header_is_earliest(rest, i - 1);
            if 0 <= i < rules.len() && rules[i].header_candidate is Some && (forall|j: int|
                0 <= j < i ==> (#[trigger] rules[j]).header_candidate is None) {
                assert(rules[0].header_candidate is None);
                assert forall|j: int| 0 <= j < i - 1 implies (#[trigger] rest[j]).header_candidate is None by {
                    assert(rules[j + 1].header_candidate is None);
                }
            }
        } else {
            lemma_first_header_is_earliest(rest, 0);
        }
        if forall|j: int| 0 <= j < rules.len() ==> (#[trigger] rules[j]).header_candidate is None {
            assert(rules[0].header_candidate is None);
            assert forall|j: int| 0 <= j < rest.len() implies (#[trigger] rest[j]).header_candidate is None by {
                assert(rules[j + 1].header_candidate is None);
            }
        }
    }
}

/// The header text that formatting a buffer with `rules` announces: that of
/// the first rules that offer one.
pub fn first_header_candidate(rules: &Vec<TagApplyRules>) -> (r: Option<String>)
    ensures
        match r {
            Some(s) => first_header(rules@.map_values(|t: TagApplyRules| t@)) == Some(s@),
            None => first_header(rules@.map_values(|t: TagApplyRules| t@)) is None,
        },
        match r {
            Some(s) => exists|i: int|
                0 <= i < rules@.len() && (#[trigger] rules@[i])@.header_candidate == Some(s@)
                    && forall|j: int| 0 <= j < i ==> (#[trigger] rules@[j])@.header_candidate is None,
            None => forall|i: int|
                0 <= i < rules@.len() ==> (#[trigger] rules@[i])@.header_candidate is None,
        },
{
    let ghost all = rules@.map_values(|t: TagApplyRules| t@);
    assert(all.skip(0) =~= all);
    let mut i: usize = 0;
    while i < rules.len()
        invariant
            all == rules@.map_values(|t: TagApplyRules| t@),
            0 <= i <= rules@.len(),
            first_header(all) == first_header(all.skip(i as int)),
            forall|j: int| 0 <= j < i ==> (#[trigger] rules@[j])@.header_candidate is None,
        decreases rules@.len() - i,
    {
        assert(all.skip(i as int)[0] == all[i as int]);
        assert(all.skip(i as int).drop_first() =~= all.skip(i as int + 1));
        if rules[i].is_header() {
            let candidate = match rules[i].header_candidate() {
                Some(s) => Some(s.clone()),
                None => None,
            };
            return candidate;
        }
        i = i + 1;
    }
    None
}

} // verus!
