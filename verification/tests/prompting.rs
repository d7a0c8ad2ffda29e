use magic_eight_ball::generator::AnswerGenerator;
use magic_eight_ball::generator::InferenceFailure;
use magic_eight_ball::prompt::FailingInference;
use magic_eight_ball::prompt::FixedInference;
use magic_eight_ball::prompt::PromptedInferenceGenerator;
use magic_eight_ball::prompt::build_prompt;
use magic_eight_ball::prompt::clean_answer;
use magic_eight_ball::prompt::normalize_question;
use magic_eight_ball::prompt::trim_text;

const PREAMBLE: &str = "<<SYS>>You are acting as an omniscient Magic 8 Ball that answers users' yes or no questions.<</SYS>>\n[INST]Answer the question that follows the 'User:' prompt with a short response. Prefix your response with 'Answer:'. If the question is not a yes or no question, reply with 'I can only answer yes or no questions'. Your tone should be expressive yet polite. Always restrict your answers to 10 words or less. NEVER continue a prompt by generating a user question.[/INST]\nUser: ";

#[test]
fn repeated_marker_prefix_is_stripped() {
    assert_eq!(clean_answer("Answer: Answer: Yes, probably."), "Yes, probably.");
}

#[test]
fn marker_embedded_mid_text_is_left_alone() {
    assert_eq!(clean_answer("Yes. Answer: no."), "Yes. Answer: no.");
}

#[test]
fn plain_output_is_only_trimmed() {
    assert_eq!(clean_answer("  Yes, probably. \n"), "Yes, probably.");
    assert_eq!(trim_text("\t maybe \r\n"), "maybe");
    assert_eq!(trim_text("   "), "");
}

#[test]
fn question_mark_is_appended_once() {
    assert_eq!(normalize_question("Will it rain"), "Will it rain?");
    assert_eq!(normalize_question("Will it rain?"), "Will it rain?");
    assert_eq!(normalize_question(""), "?");
}

#[test]
fn prompt_wraps_the_normalized_question() {
    let expected = format!("{PREAMBLE}Will it rain?");
    assert_eq!(build_prompt("Will it rain"), expected);
    assert_eq!(build_prompt("Will it rain?"), expected);
}

#[test]
fn prompted_generator_cleans_the_model_output() {
    let engine = FixedInference::new("  Answer: Answer: Yes, probably.  ".to_string());
    let mut generator = PromptedInferenceGenerator::new(engine);
    assert_eq!(
        generator.generate(Some("Will it rain?")).unwrap(),
        "Yes, probably."
    );
}

#[test]
fn inference_transport_failure_propagates() {
    let mut generator = PromptedInferenceGenerator::new(FailingInference::new());
    assert_eq!(
        generator.generate(Some("Will it rain?")),
        Err(InferenceFailure)
    );
}
