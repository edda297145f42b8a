//! Patterns, analysis and reports of the comparison.

use rust2mojo::comparison::{
    check_enabled, checked_extract_mojo_code, create_translation_prompt, extract_code_patterns, extract_mojo_code,
    generate_batch_report, generate_report, line_patterns, perform_qualitative_analysis,
    structural_overlap, CodePatterns, ComparisonSummary, QualitativeAnalysis, ScoreTexts,
};
use rust2mojo::error::Error;

#[test]
fn test_extract_code_patterns() {
    let code = r#"
            fn test() {
                if true {
                    let x = 42;
                }
            }
        "#;

    let patterns = extract_code_patterns(code);
    assert!(patterns.contains("function_definition"));
    assert!(patterns.contains("conditional"));
    assert!(patterns.contains("assignment"));
}

#[test]
fn test_structural_similarity() {
    let code1 = "fn test() { let x = 42; }";
    let code2 = "fn test() { let y = 24; }";

    let (common, total) = structural_overlap(code1, code2);
    let similarity = if total == 0 {
        1.0
    } else {
        common as f64 / total as f64
    };
    assert!(similarity > 0.5); // Should be similar structure
}

const NONE: CodePatterns = CodePatterns {
    function_definition: false,
    struct_definition: false,
    conditional: false,
    looping: false,
    assignment: false,
};

#[test]
fn patterns_of_one_line() {
    assert_eq!(line_patterns(""), NONE);
    assert_eq!(line_patterns("fn f():"), CodePatterns { function_definition: true, ..NONE });
    assert_eq!(line_patterns("struct P:"), CodePatterns { struct_definition: true, ..NONE });
    assert_eq!(line_patterns("if a:"), CodePatterns { conditional: true, ..NONE });
    assert_eq!(line_patterns("for i in v:"), CodePatterns { looping: true, ..NONE });
    assert_eq!(line_patterns("while a:"), CodePatterns { looping: true, ..NONE });
    assert_eq!(line_patterns("var x = 1"), CodePatterns { assignment: true, ..NONE });
    assert_eq!(
        line_patterns("if a = b:"),
        CodePatterns { conditional: true, assignment: true, ..NONE }
    );
}

#[test]
fn a_pattern_needs_its_keyword_at_the_start_and_a_space_after_it() {
    assert_eq!(line_patterns("fn"), NONE);
    assert_eq!(line_patterns("fnx f"), NONE);
    assert_eq!(line_patterns(" fn f"), NONE);
    assert_eq!(line_patterns("pub fn f"), NONE);
    assert_eq!(line_patterns("x=1"), NONE);
    assert_eq!(line_patterns("x == 1"), NONE);
    assert_eq!(line_patterns("x =1"), NONE);
    assert_eq!(line_patterns("iffy "), NONE);
    assert_eq!(line_patterns("structure "), NONE);
}

#[test]
fn patterns_of_a_text_are_those_of_its_trimmed_lines() {
    assert_eq!(extract_code_patterns(""), NONE);
    assert_eq!(extract_code_patterns("\n\n"), NONE);
    assert_eq!(
        extract_code_patterns("  \t fn f():\r\n    pass\r\n"),
        CodePatterns { function_definition: true, ..NONE }
    );
    assert_eq!(
        extract_code_patterns("struct P:\n    var x: Int32\nfor i in v:\n  while a:\n    b = 1"),
        CodePatterns { struct_definition: true, looping: true, assignment: true, ..NONE }
    );
    // A pattern does not reach over a line ending.
    assert_eq!(extract_code_patterns("fn\nf"), NONE);
    assert_eq!(extract_code_patterns("a =\n b"), NONE);
}

#[test]
fn names_of_patterns() {
    let all = CodePatterns {
        function_definition: true,
        struct_definition: true,
        conditional: true,
        looping: true,
        assignment: true,
    };
    for name in ["function_definition", "struct_definition", "conditional", "loop", "assignment"] {
        assert!(all.contains(name));
        assert!(!NONE.contains(name));
    }
    assert!(!all.contains("looping"));
    assert!(!all.contains(""));
    assert_eq!(all.len(), 5);
    assert_eq!(NONE.len(), 0);
    assert_eq!(CodePatterns { conditional: true, assignment: true, ..NONE }.len(), 2);
    assert!(CodePatterns { looping: true, ..NONE }.contains("loop"));
    assert!(!CodePatterns { looping: true, ..NONE }.contains("conditional"));
}

#[test]
fn overlap_counts_shared_and_all_patterns() {
    assert_eq!(structural_overlap("", ""), (0, 0));
    assert_eq!(structural_overlap("fn f", ""), (0, 1));
    assert_eq!(structural_overlap("fn f", "fn g"), (1, 1));
    assert_eq!(structural_overlap("fn f\nif a", "if b\nwhile c\nx = 1"), (1, 4));
    assert_eq!(
        structural_overlap("fn f\nstruct S\nif a\nfor i\nx = 1", "x = 2\nwhile a\nif b\nstruct T\nfn g"),
        (5, 5)
    );
}

fn texts(items: &[&str]) -> Vec<String> {
    items.iter().map(|s| s.to_string()).collect()
}

#[test]
fn analysis_of_a_longer_output() {
    let output = "# Generated Mojo code\nfrom memory import UnsafePointer\n\nfn f():\n    pass\n\n";
    let reference = "fn main():\n    pass\n";
    let a = perform_qualitative_analysis(output, reference);
    assert_eq!(
        a.rust2mojo_advantages,
        texts(&["Consistent header comments", "Includes necessary memory imports"])
    );
    assert_eq!(a.llm_advantages, texts(&["More concise code generation"]));
    assert_eq!(
        a.improvement_suggestions,
        texts(&[
            "Consider special handling for main function",
            "Compare generated code performance",
            "Validate semantic equivalence",
        ])
    );
    assert!(a.correctness_issues.is_empty());
}

#[test]
fn analysis_of_a_shorter_output() {
    let a = perform_qualitative_analysis("fn main():", "fn main():\n    pass\n");
    assert_eq!(a.rust2mojo_advantages, texts(&["More explicit code generation"]));
    assert!(a.llm_advantages.is_empty());
    assert_eq!(
        a.improvement_suggestions,
        texts(&["Compare generated code performance", "Validate semantic equivalence"])
    );
    assert!(a.correctness_issues.is_empty());
}

#[test]
fn analysis_counts_bytes_and_credits_equal_length_to_the_output() {
    let a = perform_qualitative_analysis("abc", "xyz");
    assert_eq!(a.rust2mojo_advantages, texts(&["More explicit code generation"]));
    assert!(a.llm_advantages.is_empty());
    // Two characters of three bytes each are longer than five of one byte.
    let a = perform_qualitative_analysis("€€", "abcde");
    assert_eq!(a.llm_advantages, texts(&["More concise code generation"]));
    assert!(a.rust2mojo_advantages.is_empty());
    let a = perform_qualitative_analysis("from memory import x", "");
    assert_eq!(a.rust2mojo_advantages, texts(&["Includes necessary memory imports"]));
    assert_eq!(a.llm_advantages, texts(&["More concise code generation"]));
}

#[test]
fn prompt_wraps_the_source() {
    assert_eq!(
        create_translation_prompt("fn f() {}"),
        "Translate the following Rust code to equivalent Mojo code. \nFocus on:\n1. Preserving the original functionality and semantics\n2. Using idiomatic Mojo constructs\n3. Maintaining performance characteristics\n4. Ensuring memory safety where possible\n\nRust code:\n```rust\nfn f() {}\n```\n\nPlease provide only the Mojo code translation, without explanations:\n```mojo\n"
    );
}

#[test]
fn response_without_a_fence_is_trimmed() {
    match extract_mojo_code("  \n fn main():\n    pass \n\t") {
        Ok(code) => assert_eq!(code, "fn main():\n    pass"),
        Err(e) => panic!("{}", e.to_string()),
    }
    match extract_mojo_code("") {
        Ok(code) => assert_eq!(code, ""),
        Err(e) => panic!("{}", e.to_string()),
    }
}

#[test]
fn response_with_a_fence_is_not_taken_apart() {
    assert_eq!(checked_extract_mojo_code(" x \n"), Some("x".to_string()));
    assert_eq!(checked_extract_mojo_code("```rust\nfn f() {}\n```"), Some("```rust\nfn f() {}\n```".to_string()));
    assert_eq!(checked_extract_mojo_code("```mojo\nfn f():\n    pass\n```"), None);
    assert_eq!(checked_extract_mojo_code("text ```mojo"), None);
}

#[test]
fn comparison_must_be_enabled() {
    assert!(check_enabled(true).is_ok());
    match check_enabled(false) {
        Err(Error::InternalError(detail)) => assert_eq!(detail, "LLM comparison is disabled"),
        _ => panic!("expected an internal error"),
    }
    assert_eq!(
        check_enabled(false).unwrap_err().to_string(),
        "Internal compiler error: LLM comparison is disabled"
    );
}

fn scores(a: &str, b: &str, c: &str, d: &str) -> ScoreTexts {
    ScoreTexts {
        structural: a.to_string(),
        semantic: b.to_string(),
        performance: c.to_string(),
        overall: d.to_string(),
    }
}

#[test]
fn report_on_one_comparison() {
    let summary = ComparisonSummary {
        rust_code: "fn f() {}".to_string(),
        rust2mojo_output: "fn f():\n    pass\n".to_string(),
        llm_output: "fn f(): pass".to_string(),
        scores: scores("100.00", "80.00", "75.00", "85.00"),
        analysis: QualitativeAnalysis {
            rust2mojo_advantages: texts(&["one", "two"]),
            llm_advantages: Vec::new(),
            improvement_suggestions: texts(&["three"]),
            correctness_issues: Vec::new(),
        },
    };
    assert_eq!(
        generate_report(&summary),
        "# Rust to Mojo Compilation Comparison Report\n\n## Input Rust Code\n```rust\nfn f() {}\n```\n\n## rust2mojo Output\n```mojo\nfn f():\n    pass\n\n```\n\n## LLM-Generated Output\n```mojo\nfn f(): pass\n```\n\n## Similarity Metrics\n- Structural Similarity: 100.00%\n- Semantic Similarity: 80.00%\n- Performance Similarity: 75.00%\n- **Overall Score: 85.00%**\n\n## Analysis\n\n### rust2mojo Advantages\n- one\n- two\n\n### LLM Advantages\n\n\n### Improvement Suggestions\n- three\n\n### Correctness Issues\n- No major correctness issues identified\n"
    );
}

#[test]
fn report_lists_correctness_issues() {
    let summary = ComparisonSummary {
        rust_code: String::new(),
        rust2mojo_output: String::new(),
        llm_output: String::new(),
        scores: scores("0.00", "0.00", "0.00", "0.00"),
        analysis: QualitativeAnalysis {
            rust2mojo_advantages: Vec::new(),
            llm_advantages: texts(&["shorter"]),
            improvement_suggestions: Vec::new(),
            correctness_issues: texts(&["wrong type", "missing return"]),
        },
    };
    let report = generate_report(&summary);
    assert!(report.ends_with(
        "### LLM Advantages\n- shorter\n\n### Improvement Suggestions\n\n\n### Correctness Issues\n- wrong type\n- missing return\n"
    ));
}

#[test]
fn report_on_a_batch() {
    assert_eq!(
        generate_batch_report(0, &scores("0.00", "0.00", "0.00", "0.00"), &Vec::new()),
        "# Batch Comparison Report\n\n## Summary Statistics\n- Total Test Cases: 0\n- Average Structural Similarity: 0.00%\n- Average Semantic Similarity: 0.00%\n- Average Performance Similarity: 0.00%\n- **Average Overall Score: 0.00%**\n\n## Individual Results\n"
    );
    let reports: Vec<String> = (0..11).map(|i| format!("report {}", i)).collect();
    let text = generate_batch_report(11, &scores("50.00", "80.00", "75.00", "68.33"), &reports);
    assert!(text.starts_with(
        "# Batch Comparison Report\n\n## Summary Statistics\n- Total Test Cases: 11\n- Average Structural Similarity: 50.00%\n- Average Semantic Similarity: 80.00%\n- Average Performance Similarity: 75.00%\n- **Average Overall Score: 68.33%**\n\n## Individual Results\n\n### Test Case 1\nreport 0\n\n### Test Case 2\nreport 1\n"
    ));
    assert!(text.ends_with("\n### Test Case 10\nreport 9\n\n### Test Case 11\nreport 10\n"));
}

/// The lines of a text, split at each line feed; a carriage return before the
/// line feed does not belong to the line, and what follows the last line feed
/// is a line unless it is empty.
fn stated_lines(text: &str) -> Vec<String> {
    let chars: Vec<char> = text.chars().collect();
    let mut lines = Vec::new();
    let mut rest: &[char] = &chars;
    while !rest.is_empty() {
        match rest.iter().position(|c| *c == '\n') {
            Some(n) => {
                let mut line = &rest[..n];
                if line.last() == Some(&'\r') {
                    line = &line[..line.len() - 1];
                }
                lines.push(line.iter().collect());
                rest = &rest[n + 1..];
            }
            None => {
                lines.push(rest.iter().collect());
                rest = &[];
            }
        }
    }
    lines
}

#[test]
fn lines_are_split_at_line_feeds() {
    let pieces = ["", "a", "fn f", " = ", "\n", "\r", "\r\n", "\n\n", "\r\r", "é", " "];
    let mut texts: Vec<String> = vec![String::new()];
    for _ in 0..4 {
        let mut longer = Vec::new();
        for t in &texts {
            for p in pieces {
                longer.push(format!("{}{}", t, p));
            }
        }
        texts = longer;
    }
    for text in &texts {
        let std_lines: Vec<String> = text.lines().map(|l| l.to_string()).collect();
        assert_eq!(stated_lines(text), std_lines);
    }
    assert_eq!(stated_lines(""), Vec::<String>::new());
    assert_eq!(stated_lines("a\r\nb\n\nc\r"), vec!["a", "b", "", "c\r"]);
}

#[test]
fn a_line_ending_separates_patterns() {
    let only_fn = CodePatterns { function_definition: true, ..NONE };
    assert_eq!(extract_code_patterns("x\nfn f"), only_fn);
    assert_eq!(extract_code_patterns("x\r\nfn f\r\n"), only_fn);
    assert_eq!(extract_code_patterns("x\n\nfn f\n"), only_fn);
    // A carriage return alone ends no line.
    assert_eq!(extract_code_patterns("x\rfn f"), NONE);
}
