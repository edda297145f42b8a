//! Comparing the compiler's output with a reference translation of the same
//! source: which structural patterns two texts share, what speaks for each
//! of them, and the report that presents the findings.
//!
//! Everything here works on texts and counts. Scores as fractions, and the
//! service that provides the reference translation, stay with the caller.

use crate::error::{Error, ErrorView};
use crate::text::{
    contains_text, decimal_text, is_prefix_of, join_text, lemma_join_step, occurs_in, push_decimal,
    same_text, starts_with_text, texts_view,
};
use vstd::prelude::*;
use vstd::utf8::encode_utf8;

verus! {

/// Where the first line feed of a text stands; the length of the text where
/// it holds none.
pub open spec fn first_line_feed(text: Seq<char>) -> nat
    decreases text.len(),
{
    if text.len() == 0 {
        0
    } else if text[0] == '\n' {
        0
    } else {
        1 + first_line_feed(text.drop_first())
    }
}

/// A line without the carriage return at its end, if it has one.
pub open spec fn without_carriage_return(line: Seq<char>) -> Seq<char> {
    if line.len() > 0 && line.last() == '\r' {
        line.drop_last()
    } else {
        line
    }
}

/// The lines of a text. A line ends with a line feed, or with a carriage
/// return and a line feed; neither belongs to the line. What follows the last
/// line feed is a line as it stands, unless it is empty. The empty text has no
/// lines.
pub open spec fn text_lines(text: Seq<char>) -> Seq<Seq<char>>
    decreases text.len(),
{
    if text.len() == 0 {
        Seq::empty()
    } else {
        let n = first_line_feed(text);
        if 0 <= n < text.len() {
            seq![without_carriage_return(text.take(n as int))] + text_lines(
                text.skip(n as int + 1),
            )
        } else {
            seq![text]
        }
    }
}

/// A text without the whitespace at its ends, as `str::trim` leaves it.
pub uninterp spec fn trimmed_text(text: Seq<char>) -> Seq<char>;

/// Calls `str::lines` and collects the lines. The contract states them as
/// the documentation of `str::lines` does: split at `\n` or `\r\n`, the line
/// endings left out, the last line ending optional.
#[verifier::external_body]
fn split_lines(text: &str) -> (r: Vec<String>)
    ensures
        texts_view(r@) == text_lines(text@),
{
    text.lines().map(|l| l.to_string()).collect()
}

/// Calls `str::trim`. The contract names what is left.
#[verifier::external_body]
fn trim_text(text: &str) -> (r: &str)
    ensures
        r@ == trimmed_text(text@),
{
    text.trim()
}

/// The structural patterns that a text shows: a set over the five patterns
/// that the comparison knows, one flag for each.
#[derive(Debug, Clone, Copy, PartialEq, Eq, Structural)]
pub struct CodePatterns {
    pub function_definition: bool,
    pub struct_definition: bool,
    pub conditional: bool,
    pub looping: bool,
    pub assignment: bool,
}

/// How many of two conditions hold, and so on: the count of a flag.
pub open spec fn flag_count(flag: bool) -> nat {
    if flag {
        1
    } else {
        0
    }
}

impl CodePatterns {
    /// No pattern.
    pub open spec fn none() -> CodePatterns {
        CodePatterns {
            function_definition: false,
            struct_definition: false,
            conditional: false,
            looping: false,
            assignment: false,
        }
    }

    /// The patterns that are in either set.
    pub open spec fn union(self, other: CodePatterns) -> CodePatterns {
        CodePatterns {
            function_definition: self.function_definition || other.function_definition,
            struct_definition: self.struct_definition || other.struct_definition,
            conditional: self.conditional || other.conditional,
            looping: self.looping || other.looping,
            assignment: self.assignment || other.assignment,
        }
    }

    /// The patterns that are in both sets.
    pub open spec fn intersection(self, other: CodePatterns) -> CodePatterns {
        CodePatterns {
            function_definition: self.function_definition && other.function_definition,
            struct_definition: self.struct_definition && other.struct_definition,
            conditional: self.conditional && other.conditional,
            looping: self.looping && other.looping,
            assignment: self.assignment && other.assignment,
        }
    }

    /// How many patterns the set holds.
    pub open spec fn count(self) -> nat {
        flag_count(self.function_definition) + flag_count(self.struct_definition) + flag_count(
            self.conditional,
        ) + flag_count(self.looping) + flag_count(self.assignment)
    }

    /// Whether the set holds the pattern of a given name.
    pub open spec fn holds(self, name: Seq<char>) -> bool {
        ||| name == "function_definition"@ && self.function_definition
        ||| name == "struct_definition"@ && self.struct_definition
        ||| name == "conditional"@ && self.conditional
        ||| name == "loop"@ && self.looping
        ||| name == "assignment"@ && self.assignment
    }

    /// Whether the set holds the pattern of a given name: one of
    /// `function_definition`, `struct_definition`, `conditional`, `loop` and
    /// `assignment`.
    pub fn contains(&self, name: &str) -> (r: bool)
        ensures
            r == self.holds(name@),
    {
        (same_text(name, "function_definition") && self.function_definition) || (same_text(
            name,
            "struct_definition",
        ) && self.struct_definition) || (same_text(name, "conditional") && self.conditional) || (
        same_text(name, "loop") && self.looping) || (same_text(name, "assignment")
            && self.assignment)
    }

    /// How many patterns the set holds.
    pub fn len(&self) -> (r: usize)
        ensures
            r == self.count(),
    {
        let mut n: usize = 0;
        if self.function_definition {
            n += 1;
        }
        if self.struct_definition {
            n += 1;
        }
        if self.conditional {
            n += 1;
        }
        if self.looping {
            n += 1;
        }
        if self.assignment {
            n += 1;
        }
        n
    }
}

/// The patterns that one line shows, once the whitespace at its ends is gone:
/// what it begins with, and whether it holds an equals sign between spaces.
pub open spec fn patterns_of_line(trimmed: Seq<char>) -> CodePatterns {
    CodePatterns {
        function_definition: is_prefix_of("fn "@, trimmed),
        struct_definition: is_prefix_of("struct "@, trimmed),
        conditional: is_prefix_of("if "@, trimmed),
        looping: is_prefix_of("for "@, trimmed) || is_prefix_of("while "@, trimmed),
        assignment: occurs_in(" = "@, trimmed),
    }
}

/// The patterns that any of the lines shows.
pub open spec fn patterns_of_lines(lines: Seq<Seq<char>>) -> CodePatterns
    decreases lines.len(),
{
    if lines.len() == 0 {
        CodePatterns::none()
    } else {
        patterns_of_lines(lines.drop_last()).union(patterns_of_line(trimmed_text(lines.last())))
    }
}

/// The empty text has no lines and shows no pattern.
pub proof fn lemma_empty_text_shows_no_pattern()
    ensures
        text_lines(Seq::empty()) == Seq::<Seq<char>>::empty(),
        patterns_of(Seq::empty()) == CodePatterns::none(),
{
}

/// The patterns that a text shows, line by line.
pub open spec fn patterns_of(code: Seq<char>) -> CodePatterns {
    patterns_of_lines(text_lines(code))
}

/// The patterns that one line shows. The line is taken as it is: whitespace
/// at its ends counts.
pub fn line_patterns(trimmed: &str) -> (r: CodePatterns)
    ensures
        r == patterns_of_line(trimmed@),
{
    CodePatterns {
        function_definition: starts_with_text(trimmed, "fn "),
        struct_definition: starts_with_text(trimmed, "struct "),
        conditional: starts_with_text(trimmed, "if "),
        looping: starts_with_text(trimmed, "for ") || starts_with_text(trimmed, "while "),
        assignment: contains_text(trimmed, " = "),
    }
}

/// The patterns that a text shows: those of each of its lines, with the
/// whitespace at the ends of the line left out.
pub fn extract_code_patterns(code: &str) -> (r: CodePatterns)
    ensures
        r == patterns_of(code@),
{
    let lines = split_lines(code);
    let ghost all = texts_view(lines@);
    let mut found = CodePatterns {
        function_definition: false,
        struct_definition: false,
        conditional: false,
        looping: false,
        assignment: false,
    };
    let mut i: usize = 0;
    while i < lines.len()
        invariant
            i <= lines.len(),
            all == texts_view(lines@),
            found == patterns_of_lines(all.take(i as int)),
        decreases lines.len() - i,
    {
        let here = line_patterns(trim_text(lines[i].as_str()));
        proof {
            assert(all.take(i + 1).drop_last() =~= all.take(i as int));
            assert(all.take(i + 1).last() == lines[i as int]@);
        }
        found = CodePatterns {
            function_definition: found.function_definition || here.function_definition,
            struct_definition: found.struct_definition || here.struct_definition,
            conditional: found.conditional || here.conditional,
            looping: found.looping || here.looping,
            assignment: found.assignment || here.assignment,
        };
        i += 1;
    }
    assert(all.take(lines.len() as int) =~= all);
    found
}

/// How many patterns two texts share, and how many either of them shows.
/// Their quotient is the structural similarity of the two texts; where
/// neither shows any pattern, the second count is zero.
pub fn structural_overlap(code1: &str, code2: &str) -> (r: (usize, usize))
    ensures
        r.0 == patterns_of(code1@).intersection(patterns_of(code2@)).count(),
        r.1 == patterns_of(code1@).union(patterns_of(code2@)).count(),
{
    let a = extract_code_patterns(code1);
    let b = extract_code_patterns(code2);
    let common = CodePatterns {
        function_definition: a.function_definition && b.function_definition,
        struct_definition: a.struct_definition && b.struct_definition,
        conditional: a.conditional && b.conditional,
        looping: a.looping && b.looping,
        assignment: a.assignment && b.assignment,
    };
    let either = CodePatterns {
        function_definition: a.function_definition || b.function_definition,
        struct_definition: a.struct_definition || b.struct_definition,
        conditional: a.conditional || b.conditional,
        looping: a.looping || b.looping,
        assignment: a.assignment || b.assignment,
    };
    (common.len(), either.len())
}

/// What speaks for each of two translations, what could be improved, and
/// what is wrong.
#[derive(Debug, Clone)]
pub struct QualitativeAnalysis {
    /// Areas where the compiler's output is better.
    pub rust2mojo_advantages: Vec<String>,
    /// Areas where the reference translation is better.
    pub llm_advantages: Vec<String>,
    /// Suggestions for improvement.
    pub improvement_suggestions: Vec<String>,
    /// Correctness assessment.
    pub correctness_issues: Vec<String>,
}

pub struct QualitativeAnalysisView {
    pub rust2mojo_advantages: Seq<Seq<char>>,
    pub llm_advantages: Seq<Seq<char>>,
    pub improvement_suggestions: Seq<Seq<char>>,
    pub correctness_issues: Seq<Seq<char>>,
}

impl QualitativeAnalysis {
    pub open spec fn view(&self) -> QualitativeAnalysisView {
        QualitativeAnalysisView {
            rust2mojo_advantages: texts_view(self.rust2mojo_advantages@),
            llm_advantages: texts_view(self.llm_advantages@),
            improvement_suggestions: texts_view(self.improvement_suggestions@),
            correctness_issues: texts_view(self.correctness_issues@),
        }
    }
}

/// One remark where the condition holds, none otherwise.
pub open spec fn remark_if(condition: bool, remark: Seq<char>) -> Seq<Seq<char>> {
    if condition {
        seq![remark]
    } else {
        Seq::empty()
    }
}

/// The length of a text as `str::len` gives it: the number of bytes that it
/// takes in UTF-8.
pub open spec fn byte_length(text: Seq<char>) -> usize {
    encode_utf8(text).len() as usize
}

/// Whether the first text takes fewer bytes than the second.
pub open spec fn is_shorter(first: Seq<char>, second: Seq<char>) -> bool {
    byte_length(first) < byte_length(second)
}

/// The analysis of the compiler's output against a reference translation.
/// The output is credited for its header, for the memory import, and for
/// being explicit where it is not the shorter of the two; the reference for
/// being shorter. Special handling of `main` is suggested where only the
/// reference has the entry point; two suggestions are always made. No
/// correctness issue is ever found.
pub open spec fn analysis_of(output: Seq<char>, reference: Seq<char>) -> QualitativeAnalysisView {
    QualitativeAnalysisView {
        rust2mojo_advantages: remark_if(
            occurs_in("# Generated Mojo code"@, output),
            "Consistent header comments"@,
        ) + remark_if(!is_shorter(reference, output), "More explicit code generation"@)
            + remark_if(
            occurs_in("from memory import"@, output),
            "Includes necessary memory imports"@,
        ),
        llm_advantages: remark_if(is_shorter(reference, output), "More concise code generation"@),
        improvement_suggestions: remark_if(
            !occurs_in("fn main():"@, output) && occurs_in("fn main():"@, reference),
            "Consider special handling for main function"@,
        ) + seq!["Compare generated code performance"@, "Validate semantic equivalence"@],
        correctness_issues: Seq::empty(),
    }
}

/// Adds one remark to a list.
fn push_remark(remarks: &mut Vec<String>, remark: &str)
    ensures
        texts_view(final(remarks)@) == texts_view(old(remarks)@) + seq![remark@],
{
    remarks.push(String::from_str(remark));
    assert(texts_view(remarks@) =~= texts_view(old(remarks)@) + seq![remark@]);
}

/// Analyses the compiler's output against a reference translation.
pub fn perform_qualitative_analysis(rust2mojo_code: &str, llm_code: &str) -> (r:
    QualitativeAnalysis)
    ensures
        r@ == analysis_of(rust2mojo_code@, llm_code@),
{
    let mut rust2mojo_advantages: Vec<String> = Vec::new();
    let mut llm_advantages: Vec<String> = Vec::new();
    let mut improvement_suggestions: Vec<String> = Vec::new();
    let correctness_issues: Vec<String> = Vec::new();
    let ghost expected = analysis_of(rust2mojo_code@, llm_code@);

    if contains_text(rust2mojo_code, "# Generated Mojo code") {
        push_remark(&mut rust2mojo_advantages, "Consistent header comments");
    }
    if llm_code.len() < rust2mojo_code.len() {
        push_remark(&mut llm_advantages, "More concise code generation");
    } else {
        push_remark(&mut rust2mojo_advantages, "More explicit code generation");
    }
    if contains_text(rust2mojo_code, "from memory import") {
        push_remark(&mut rust2mojo_advantages, "Includes necessary memory imports");
    }
    if !contains_text(rust2mojo_code, "fn main():") && contains_text(llm_code, "fn main():") {
        push_remark(&mut improvement_suggestions, "Consider special handling for main function");
    }
    push_remark(&mut improvement_suggestions, "Compare generated code performance");
    push_remark(&mut improvement_suggestions, "Validate semantic equivalence");

    assert(texts_view(rust2mojo_advantages@) =~= expected.rust2mojo_advantages);
    assert(texts_view(llm_advantages@) =~= expected.llm_advantages);
    assert(texts_view(improvement_suggestions@) =~= expected.improvement_suggestions);
    assert(texts_view(correctness_issues@) =~= expected.correctness_issues);
    QualitativeAnalysis {
        rust2mojo_advantages,
        llm_advantages,
        improvement_suggestions,
        correctness_issues,
    }
}

/// The request for a reference translation of a source text.
pub open spec fn translation_prompt(rust_code: Seq<char>) -> Seq<char> {
    "Translate the following Rust code to equivalent Mojo code. \nFocus on:\n1. Preserving the original functionality and semantics\n2. Using idiomatic Mojo constructs\n3. Maintaining performance characteristics\n4. Ensuring memory safety where possible\n\nRust code:\n```rust\n"@
        + rust_code
        + "\n```\n\nPlease provide only the Mojo code translation, without explanations:\n```mojo\n"@
}

/// Writes the request for a reference translation of a source text.
pub fn create_translation_prompt(rust_code: &str) -> (r: String)
    ensures
        r@ == translation_prompt(rust_code@),
{
    let mut out = String::from_str(
        "Translate the following Rust code to equivalent Mojo code. \nFocus on:\n1. Preserving the original functionality and semantics\n2. Using idiomatic Mojo constructs\n3. Maintaining performance characteristics\n4. Ensuring memory safety where possible\n\nRust code:\n```rust\n",
    );
    out.append(rust_code);
    out.append(
        "\n```\n\nPlease provide only the Mojo code translation, without explanations:\n```mojo\n",
    );
    out
}

/// Takes the translation out of a response that holds no fenced block: the
/// response without the whitespace at its ends.
pub fn extract_mojo_code(llm_response: &str) -> (r: Result<String, Error>)
    requires
        !occurs_in("```mojo"@, llm_response@),
    ensures
        match r {
            Ok(code) => code@ == trimmed_text(llm_response@),
            Err(_) => false,
        },
{
    Ok(String::from_str(trim_text(llm_response)))
}

/// Takes the translation out of any response: `None` where the response
/// holds a fenced block, and otherwise the response without the whitespace at
/// its ends.
pub fn checked_extract_mojo_code(llm_response: &str) -> (r: Option<String>)
    ensures
        match r {
            Some(code) => !occurs_in("```mojo"@, llm_response@) && code@ == trimmed_text(
                llm_response@,
            ),
            None => occurs_in("```mojo"@, llm_response@),
        },
{
    if contains_text(llm_response, "```mojo") {
        None
    } else {
        match extract_mojo_code(llm_response) {
            Ok(code) => Some(code),
            Err(_) => None,
        }
    }
}

/// The comparison may only run where it is enabled.
pub fn check_enabled(enabled: bool) -> (r: Result<(), Error>)
    ensures
        match r {
            Ok(_) => enabled,
            Err(e) => !enabled && e@ == ErrorView::InternalError("LLM comparison is disabled"@),
        },
{
    if enabled {
        Ok(())
    } else {
        Err(Error::InternalError(String::from_str("LLM comparison is disabled")))
    }
}

/// Four scores as the texts of their percentages.
#[derive(Debug, Clone)]
pub struct ScoreTexts {
    pub structural: String,
    pub semantic: String,
    pub performance: String,
    pub overall: String,
}

/// What a report presents: the source, the two translations, the scores and
/// the analysis.
#[derive(Debug, Clone)]
pub struct ComparisonSummary {
    pub rust_code: String,
    pub rust2mojo_output: String,
    pub llm_output: String,
    pub scores: ScoreTexts,
    pub analysis: QualitativeAnalysis,
}

/// The remarks as a list: each on a line of its own, after a dash.
pub open spec fn bullet_list(remarks: Seq<Seq<char>>) -> Seq<char> {
    join_text(Seq::new(remarks.len(), |i: int| "- "@ + remarks[i]), "\n"@)
}

/// The list of correctness issues, or a line that says that there are none.
pub open spec fn issue_list(issues: Seq<Seq<char>>) -> Seq<char> {
    if issues.len() == 0 {
        "- No major correctness issues identified"@
    } else {
        bullet_list(issues)
    }
}

/// The four lines that present the scores.
pub open spec fn score_lines(
    structural: Seq<char>,
    semantic: Seq<char>,
    performance: Seq<char>,
    overall: Seq<char>,
) -> Seq<char> {
    "- Structural Similarity: "@ + structural + "%\n- Semantic Similarity: "@ + semantic
        + "%\n- Performance Similarity: "@ + performance + "%\n- **Overall Score: "@ + overall
        + "%**\n"@
}

/// The report on one comparison.
pub open spec fn report_text(
    rust_code: Seq<char>,
    rust2mojo_output: Seq<char>,
    llm_output: Seq<char>,
    scores: Seq<char>,
    analysis: QualitativeAnalysisView,
) -> Seq<char> {
    "# Rust to Mojo Compilation Comparison Report\n\n## Input Rust Code\n```rust\n"@ + rust_code
        + "\n```\n\n## rust2mojo Output\n```mojo\n"@ + rust2mojo_output
        + "\n```\n\n## LLM-Generated Output\n```mojo\n"@ + llm_output
        + "\n```\n\n## Similarity Metrics\n"@ + scores
        + "\n## Analysis\n\n### rust2mojo Advantages\n"@ + bullet_list(
        analysis.rust2mojo_advantages,
    ) + "\n\n### LLM Advantages\n"@ + bullet_list(analysis.llm_advantages)
        + "\n\n### Improvement Suggestions\n"@ + bullet_list(analysis.improvement_suggestions)
        + "\n\n### Correctness Issues\n"@ + issue_list(analysis.correctness_issues) + "\n"@
}

/// Appends the remarks as a list.
fn emit_bullet_list(out: &mut String, remarks: &Vec<String>)
    ensures
        final(out)@ == old(out)@ + bullet_list(texts_view(remarks@)),
{
    let ghost base = out@;
    let ghost parts = Seq::new(remarks.len() as nat, |i: int| "- "@ + texts_view(remarks@)[i]);
    let mut i: usize = 0;
    assert(out@ =~= base + join_text(parts.take(0), "\n"@));
    while i < remarks.len()
        invariant
            i <= remarks.len(),
            parts == Seq::new(remarks.len() as nat, |i: int| "- "@ + texts_view(remarks@)[i]),
            out@ == base + join_text(parts.take(i as int), "\n"@),
        decreases remarks.len() - i,
    {
        if i > 0 {
            out.append("\n");
        }
        out.append("- ");
        out.append(remarks[i].as_str());
        proof {
            lemma_join_step(parts, "\n"@, i as int);
            assert(parts[i as int] == "- "@ + remarks[i as int]@);
            assert(out@ =~= base + join_text(parts.take(i + 1), "\n"@));
        }
        i += 1;
    }
    assert(parts.take(remarks.len() as int) =~= parts);
}

/// Appends the four lines that present the scores.
fn emit_score_lines(out: &mut String, scores: &ScoreTexts)
    ensures
        final(out)@ == old(out)@ + score_lines(
            scores.structural@,
            scores.semantic@,
            scores.performance@,
            scores.overall@,
        ),
{
    let mut text = String::from_str("- Structural Similarity: ");
    text.append(scores.structural.as_str());
    text.append("%\n- Semantic Similarity: ");
    text.append(scores.semantic.as_str());
    text.append("%\n- Performance Similarity: ");
    text.append(scores.performance.as_str());
    text.append("%\n- **Overall Score: ");
    text.append(scores.overall.as_str());
    text.append("%**\n");
    out.append(text.as_str());
}

/// Writes the report on one comparison.
pub fn generate_report(result: &ComparisonSummary) -> (r: String)
    ensures
        r@ == report_text(
            result.rust_code@,
            result.rust2mojo_output@,
            result.llm_output@,
            score_lines(
                result.scores.structural@,
                result.scores.semantic@,
                result.scores.performance@,
                result.scores.overall@,
            ),
            result.analysis@,
        ),
{
    let mut scores = String::new();
    emit_score_lines(&mut scores, &result.scores);
    let mut advantages = String::new();
    emit_bullet_list(&mut advantages, &result.analysis.rust2mojo_advantages);
    let mut reference_advantages = String::new();
    emit_bullet_list(&mut reference_advantages, &result.analysis.llm_advantages);
    let mut suggestions = String::new();
    emit_bullet_list(&mut suggestions, &result.analysis.improvement_suggestions);
    let mut issues = String::new();
    if result.analysis.correctness_issues.len() == 0 {
        issues.append("- No major correctness issues identified");
    } else {
        emit_bullet_list(&mut issues, &result.analysis.correctness_issues);
    }
    proof {
        let a = result.analysis@;
        assert(scores@ =~= score_lines(
            result.scores.structural@,
            result.scores.semantic@,
            result.scores.performance@,
            result.scores.overall@,
        ));
        assert(advantages@ =~= bullet_list(a.rust2mojo_advantages));
        assert(reference_advantages@ =~= bullet_list(a.llm_advantages));
        assert(suggestions@ =~= bullet_list(a.improvement_suggestions));
        assert(issues@ =~= issue_list(a.correctness_issues));
    }
    let mut out = String::from_str(
        "# Rust to Mojo Compilation Comparison Report\n\n## Input Rust Code\n```rust\n",
    );
    out.append(result.rust_code.as_str());
    out.append("\n```\n\n## rust2mojo Output\n```mojo\n");
    out.append(result.rust2mojo_output.as_str());
    out.append("\n```\n\n## LLM-Generated Output\n```mojo\n");
    out.append(result.llm_output.as_str());
    out.append("\n```\n\n## Similarity Metrics\n");
    out.append(scores.as_str());
    out.append("\n## Analysis\n\n### rust2mojo Advantages\n");
    out.append(advantages.as_str());
    out.append("\n\n### LLM Advantages\n");
    out.append(reference_advantages.as_str());
    out.append("\n\n### Improvement Suggestions\n");
    out.append(suggestions.as_str());
    out.append("\n\n### Correctness Issues\n");
    out.append(issues.as_str());
    out.append("\n");
    out
}

/// The section of a batch report on one test case: a heading with the
/// number of the case, counted from one, then its report.
pub open spec fn case_section(position: nat, report: Seq<char>) -> Seq<char> {
    "\n### Test Case "@ + decimal_text(position + 1) + "\n"@ + report + "\n"@
}

/// The sections of a batch report, in order.
pub open spec fn case_sections(reports: Seq<Seq<char>>) -> Seq<char>
    decreases reports.len(),
{
    if reports.len() == 0 {
        Seq::empty()
    } else {
        case_sections(reports.drop_last()) + case_section(
            (reports.len() - 1) as nat,
            reports.last(),
        )
    }
}

/// The report on a batch of comparisons: the number of cases, the average
/// scores, then a section for each case.
pub open spec fn batch_report_text(
    total_test_cases: nat,
    averages: Seq<char>,
    reports: Seq<Seq<char>>,
) -> Seq<char> {
    "# Batch Comparison Report\n\n## Summary Statistics\n- Total Test Cases: "@ + decimal_text(
        total_test_cases,
    ) + "\n"@ + averages + "\n## Individual Results\n"@ + case_sections(reports)
}

/// The four lines that present the average scores.
pub open spec fn average_lines(
    structural: Seq<char>,
    semantic: Seq<char>,
    performance: Seq<char>,
    overall: Seq<char>,
) -> Seq<char> {
    "- Average Structural Similarity: "@ + structural + "%\n- Average Semantic Similarity: "@
        + semantic + "%\n- Average Performance Similarity: "@ + performance
        + "%\n- **Average Overall Score: "@ + overall + "%**\n"@
}

/// Writes the report on a batch of comparisons from the reports on its
/// cases.
pub fn generate_batch_report(
    total_test_cases: usize,
    averages: &ScoreTexts,
    reports: &Vec<String>,
) -> (r: String)
    ensures
        r@ == batch_report_text(
            total_test_cases as nat,
            average_lines(
                averages.structural@,
                averages.semantic@,
                averages.performance@,
                averages.overall@,
            ),
            texts_view(reports@),
        ),
{
    let mut lines = String::from_str("- Average Structural Similarity: ");
    lines.append(averages.structural.as_str());
    lines.append("%\n- Average Semantic Similarity: ");
    lines.append(averages.semantic.as_str());
    lines.append("%\n- Average Performance Similarity: ");
    lines.append(averages.performance.as_str());
    lines.append("%\n- **Average Overall Score: ");
    lines.append(averages.overall.as_str());
    lines.append("%**\n");
    let mut count = String::new();
    push_decimal(&mut count, total_test_cases as u64);
    assert(count@ =~= decimal_text(total_test_cases as nat));

    let mut out = String::from_str(
        "# Batch Comparison Report\n\n## Summary Statistics\n- Total Test Cases: ",
    );
    out.append(count.as_str());
    out.append("\n");
    out.append(lines.as_str());
    out.append("\n## Individual Results\n");
    let ghost base = out@;
    let ghost all = texts_view(reports@);
    let mut i: usize = 0;
    assert(all.take(0) =~= Seq::<Seq<char>>::empty());
    assert(out@ =~= base + case_sections(all.take(0)));
    while i < reports.len()
        invariant
            i <= reports.len(),
            all == texts_view(reports@),
            out@ == base + case_sections(all.take(i as int)),
        decreases reports.len() - i,
    {
        let mut section = String::from_str("\n### Test Case ");
        push_decimal(&mut section, (i + 1) as u64);
        section.append("\n");
        section.append(reports[i].as_str());
        section.append("\n");
        out.append(section.as_str());
        proof {
            assert(all.take(i + 1).drop_last() =~= all.take(i as int));
            assert(all.take(i + 1).last() == reports[i as int]@);
            assert(section@ == case_section(i as nat, reports[i as int]@));
            assert(out@ =~= base + case_sections(all.take(i + 1)));
        }
        i += 1;
    }
    assert(all.take(reports.len() as int) =~= all);
    out
}

} // verus!
