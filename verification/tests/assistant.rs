use myguard_backend::assistant::{
    analyze_clause, analyze_clause_reply, chat_reply, chat_with_llm, explain_contract, explanation,
    get_contract_tips, greet, quick_contract_prompt, quick_contract_reply, read_key_points, ChatStep,
};
use myguard_backend::verdict::AnalysisError;

#[test]
fn greeting_names_the_caller() {
    assert_eq!(greet("Ada"), "Hello, Ada!");
    assert_eq!(greet(""), "Hello, !");
}

#[test]
fn there_are_five_tips() {
    let tips = get_contract_tips();
    assert_eq!(tips.len(), 5);
    assert_eq!(tips[0], "Always read the entire contract before signing");
    assert_eq!(tips[4], "Understand payment terms and late fee structures");
}

#[test]
fn blank_message_is_answered_without_the_model() {
    match chat_with_llm("  \n".to_string()) {
        ChatStep::Reply(answer) => assert_eq!(answer, "Please provide a question or topic to discuss."),
        _ => panic!("a blank message needs no model"),
    }
    match chat_with_llm("What is a lease?".to_string()) {
        ChatStep::Ask { system, user } => {
            assert!(system.starts_with("You are MyGuard, a helpful contract analysis assistant"));
            assert!(system.ends_with("always identify yourself as MyGuard."));
            assert_eq!(user, "What is a lease?");
        }
        _ => panic!("a question goes to the model"),
    }
}

#[test]
fn blank_reply_is_replaced_by_the_apology() {
    assert_eq!(
        chat_reply(" ".to_string()),
        "I'm MyGuard, and I'm sorry, but I couldn't generate a response. Please try rephrasing your question."
    );
    assert_eq!(chat_reply(" A lease is a contract. ".to_string()), " A lease is a contract. ");
}

#[test]
fn quick_prompt_and_reply() {
    assert_eq!(quick_contract_prompt(" ").unwrap_err(), AnalysisError::EmptyInput);
    assert_eq!(
        quick_contract_prompt("Is this fair?").unwrap(),
        "Answer this contract-related question concisely (under 100 words): Is this fair?"
    );
    assert_eq!(quick_contract_reply("\t".to_string()).unwrap_err(), AnalysisError::CollaboratorFailure);
    assert_eq!(quick_contract_reply(" yes ".to_string()).unwrap(), " yes ");
}

#[test]
fn clause_prompt_and_reply() {
    assert_eq!(analyze_clause("").unwrap_err(), AnalysisError::EmptyInput);
    assert_eq!(
        analyze_clause("No refund").unwrap(),
        "Analyze this contract clause and determine if it is fair or potentially unfair. Respond with ONLY 'Allowed' or 'Not Allowed': 'No refund'"
    );
    assert_eq!(analyze_clause_reply("# only a heading".to_string()).unwrap_err(), AnalysisError::CollaboratorFailure);
    assert_eq!(analyze_clause_reply("Here's my answer:\n Not Allowed \n".to_string()).unwrap(), "Not Allowed");
}

#[test]
fn explanation_prompts() {
    assert_eq!(explain_contract(" \n ").unwrap_err(), AnalysisError::EmptyInput);
    let prompts = explain_contract("Rent is due monthly").unwrap();
    assert_eq!(prompts.summary, "Provide a brief 2-3 sentence summary of this contract clause: 'Rent is due monthly'");
    assert_eq!(
        prompts.key_points,
        "List 3 key points from this contract clause as short bullet points without explanations: 'Rent is due monthly'"
    );
    assert_eq!(prompts.recommendations, "Provide 1-2 recommendations regarding this contract clause: 'Rent is due monthly'");
}

#[test]
fn key_points_lose_their_list_marks() {
    let got = read_key_points("Here's the list:\n- first point \n\n* second\n\u{2022} - third  \nfourth - kept\n - \n".to_string());
    assert_eq!(got, vec!["first point", "second", "third", "fourth - kept", ""]);
    assert!(read_key_points("".to_string()).is_empty());
}

#[test]
fn explanation_is_made_of_cleaned_replies() {
    let e = explanation(
        "**Summary**\nA lease.\n".to_string(),
        "- one\n- two".to_string(),
        "  Read it twice. ".to_string(),
    );
    assert_eq!(e.summary, "A lease.");
    assert_eq!(e.key_points, vec!["one", "two"]);
    assert_eq!(e.recommendations, "Read it twice.");
}
