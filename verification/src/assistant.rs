//! The requests around classification: what is asked of the model for a
//! question, a clause or an explanation, and how its replies are taken.

use vstd::prelude::*;
use vstd::string::*;
use crate::external::{clean_chars, clean_llm_response, cleaned};
use crate::segment::{keep_nonempty, lines, nonempty, split_lines};
use crate::text::{chars_of, copy_range, enclose, is_blank, string_of, trim, trimmed};
use crate::verdict::AnalysisError;

verus! {

/// The texts of a list of strings.
pub open spec fn texts(v: Seq<String>) -> Seq<Seq<char>> {
    Seq::new(v.len(), |i: int| v[i]@)
}

/// A greeting by name.
pub fn greet(name: &str) -> (r: String)
    ensures
        r@ == "Hello, "@ + name@ + "!"@,
{
    enclose("Hello, ", &chars_of(name), "!")
}

/// Five pieces of advice on reading a contract.
pub open spec fn contract_tips() -> Seq<Seq<char>> {
    seq![
        "Always read the entire contract before signing"@,
        "Pay attention to termination clauses and notice periods"@,
        "Look for clauses that limit liability or rights"@,
        "Watch for automatic renewal terms"@,
        "Understand payment terms and late fee structures"@,
    ]
}

/// The advice, in order.
pub fn get_contract_tips() -> (r: Vec<String>)
    ensures
        texts(r@) == contract_tips(),
{
    let mut v: Vec<String> = Vec::new();
    v.push("Always read the entire contract before signing".to_owned());
    v.push("Pay attention to termination clauses and notice periods".to_owned());
    v.push("Look for clauses that limit liability or rights".to_owned());
    v.push("Watch for automatic renewal terms".to_owned());
    v.push("Understand payment terms and late fee structures".to_owned());
    assert(texts(v@) =~= contract_tips());
    v
}

/// What the assistant is told about its role before a conversation.
pub open spec fn chat_system_prompt() -> Seq<char> {
    "You are MyGuard, a helpful contract analysis assistant that specializes in legal document review. Provide short and focused answers about contract clauses, legal terms, and document analysis. When identifying potentially unfair clauses, be specific about why they might be problematic. Keep responses concise (under 200 words) and always identify yourself as MyGuard."@
}

/// The answer to a blank message.
pub open spec fn chat_blank_answer() -> Seq<char> {
    "Please provide a question or topic to discuss."@
}

/// The answer that stands in for a blank reply of the model.
pub open spec fn chat_apology() -> Seq<char> {
    "I'm MyGuard, and I'm sorry, but I couldn't generate a response. Please try rephrasing your question."@
}

/// What a conversation does next.
#[derive(Debug)]
pub enum ChatStep {
    /// The answer is known without the model.
    Reply(String),
    /// The model is to be asked, with the role text first and the user's message second.
    Ask { system: String, user: String },
}

/// Takes a message of the user: a blank one is answered at once, any other
/// goes to the model unchanged, behind the role text.
pub fn chat_with_llm(prompt: String) -> (step: ChatStep)
    ensures
        match step {
            ChatStep::Reply(answer) => trim(prompt@).len() == 0 && answer@ == chat_blank_answer(),
            ChatStep::Ask { system, user } => trim(prompt@).len() > 0 && system@
                == chat_system_prompt() && user@ == prompt@,
        },
{
    if is_blank(prompt.as_str()) {
        ChatStep::Reply("Please provide a question or topic to discuss.".to_owned())
    } else {
        ChatStep::Ask {
            system: "You are MyGuard, a helpful contract analysis assistant that specializes in legal document review. Provide short and focused answers about contract clauses, legal terms, and document analysis. When identifying potentially unfair clauses, be specific about why they might be problematic. Keep responses concise (under 200 words) and always identify yourself as MyGuard.".to_owned(),
            user: prompt,
        }
    }
}

/// Takes the model's reply in a conversation: a blank one is replaced by the
/// apology, any other is handed on unchanged.
pub fn chat_reply(response: String) -> (r: String)
    ensures
        trim(response@).len() == 0 ==> r@ == chat_apology(),
        trim(response@).len() > 0 ==> r@ == response@,
{
    if is_blank(response.as_str()) {
        "I'm MyGuard, and I'm sorry, but I couldn't generate a response. Please try rephrasing your question.".to_owned()
    } else {
        response
    }
}

/// What is asked of the model for a short question.
pub open spec fn quick_prompt(question: Seq<char>) -> Seq<char> {
    "Answer this contract-related question concisely (under 100 words): "@ + question
}

/// The prompt for a short question. A blank question is refused as empty input.
pub fn quick_contract_prompt(prompt: &str) -> (r: Result<String, AnalysisError>)
    ensures
        trim(prompt@).len() == 0 ==> r is Err && r->Err_0 == AnalysisError::EmptyInput,
        trim(prompt@).len() > 0 ==> r is Ok && r->Ok_0@ == quick_prompt(prompt@),
{
    if is_blank(prompt) {
        Err(AnalysisError::EmptyInput)
    } else {
        let r = enclose(
            "Answer this contract-related question concisely (under 100 words): ",
            &chars_of(prompt),
            "",
        );
        proof {
            reveal_strlit("");
            assert(r@ =~= quick_prompt(prompt@));
        }
        Ok(r)
    }
}

/// Takes the model's reply to a short question: a blank one is a failure of
/// the collaborator, any other is the answer.
pub fn quick_contract_reply(response: String) -> (r: Result<String, AnalysisError>)
    ensures
        trim(response@).len() == 0 ==> r is Err && r->Err_0 == AnalysisError::CollaboratorFailure,
        trim(response@).len() > 0 ==> r is Ok && r->Ok_0@ == response@,
{
    if is_blank(response.as_str()) {
        Err(AnalysisError::CollaboratorFailure)
    } else {
        Ok(response)
    }
}

/// What is asked of the model for its judgement of one clause.
pub open spec fn clause_prompt(clause: Seq<char>) -> Seq<char> {
    "Analyze this contract clause and determine if it is fair or potentially unfair. Respond with ONLY 'Allowed' or 'Not Allowed': '"@
        + clause + "'"@
}

/// The prompt for the model's judgement of one clause. A blank clause is
/// refused as empty input.
pub fn analyze_clause(clause: &str) -> (r: Result<String, AnalysisError>)
    ensures
        trim(clause@).len() == 0 ==> r is Err && r->Err_0 == AnalysisError::EmptyInput,
        trim(clause@).len() > 0 ==> r is Ok && r->Ok_0@ == clause_prompt(clause@),
{
    if is_blank(clause) {
        Err(AnalysisError::EmptyInput)
    } else {
        Ok(
            enclose(
                "Analyze this contract clause and determine if it is fair or potentially unfair. Respond with ONLY 'Allowed' or 'Not Allowed': '",
                &chars_of(clause),
                "'",
            ),
        )
    }
}

/// Takes the model's judgement of one clause: the cleaned reply, or a
/// failure of the collaborator where nothing but white space is left of it.
pub fn analyze_clause_reply(response: String) -> (r: Result<String, AnalysisError>)
    ensures
        trim(cleaned(response@)).len() == 0 ==> r is Err && r->Err_0
            == AnalysisError::CollaboratorFailure,
        trim(cleaned(response@)).len() > 0 ==> r is Ok && r->Ok_0@ == cleaned(response@),
{
    let clean = clean_chars(&chars_of(response.as_str()));
    if trimmed(&clean).len() == 0 {
        Err(AnalysisError::CollaboratorFailure)
    } else {
        Ok(string_of(&clean))
    }
}

/// The three questions that make an explanation.
#[derive(Debug)]
pub struct ExplanationPrompts {
    pub summary: String,
    pub key_points: String,
    pub recommendations: String,
}

/// An explanation of a contract text.
#[derive(Debug)]
pub struct ContractExplanation {
    pub summary: String,
    pub key_points: Vec<String>,
    pub recommendations: String,
}

/// What is asked of the model for a summary.
pub open spec fn summary_prompt(text: Seq<char>) -> Seq<char> {
    "Provide a brief 2-3 sentence summary of this contract clause: '"@ + text + "'"@
}

/// What is asked of the model for the key points.
pub open spec fn key_points_prompt(text: Seq<char>) -> Seq<char> {
    "List 3 key points from this contract clause as short bullet points without explanations: '"@
        + text + "'"@
}

/// What is asked of the model for recommendations.
pub open spec fn recommendations_prompt(text: Seq<char>) -> Seq<char> {
    "Provide 1-2 recommendations regarding this contract clause: '"@ + text + "'"@
}

/// A character that marks a list item, or a space.
pub open spec fn is_bullet(c: char) -> bool {
    c == '-' || c == '*' || c == '\u{2022}' || c == ' '
}

/// A line without its leading list marks.
pub open spec fn strip_bullets(s: Seq<char>) -> Seq<char>
    decreases s.len(),
{
    if s.len() > 0 && is_bullet(s[0]) {
        strip_bullets(s.drop_first())
    } else {
        s
    }
}

/// The key points of a cleaned reply: its lines that are not empty, each
/// without leading list marks and trimmed.
pub open spec fn key_points(clean: Seq<char>) -> Seq<Seq<char>> {
    let ls = nonempty(lines(clean));
    Seq::new(ls.len(), |i: int| trim(strip_bullets(ls[i])))
}

/// The three prompts for an explanation. A blank text is refused as empty input.
pub fn explain_contract(contract_text: &str) -> (r: Result<ExplanationPrompts, AnalysisError>)
    ensures
        trim(contract_text@).len() == 0 ==> r is Err && r->Err_0 == AnalysisError::EmptyInput,
        trim(contract_text@).len() > 0 ==> r is Ok && r->Ok_0.summary@ == summary_prompt(
            contract_text@,
        ) && r->Ok_0.key_points@ == key_points_prompt(contract_text@) && r->Ok_0.recommendations@
            == recommendations_prompt(contract_text@),
{
    if is_blank(contract_text) {
        Err(AnalysisError::EmptyInput)
    } else {
        let body = chars_of(contract_text);
        Ok(
            ExplanationPrompts {
                summary: enclose(
                    "Provide a brief 2-3 sentence summary of this contract clause: '",
                    &body,
                    "'",
                ),
                key_points: enclose(
                    "List 3 key points from this contract clause as short bullet points without explanations: '",
                    &body,
                    "'",
                ),
                recommendations: enclose(
                    "Provide 1-2 recommendations regarding this contract clause: '",
                    &body,
                    "'",
                ),
            },
        )
    }
}

fn strip_line(line: &Vec<char>) -> (r: Vec<char>)
    ensures
        r@ == trim(strip_bullets(line@)),
{
    let n: usize = line.len();
    let mut k: usize = 0;
    assert(line@.skip(0) =~= line@);
    while k < n && (line[k] == '-' || line[k] == '*' || line[k] == '\u{2022}' || line[k] == ' ')
        invariant
            k <= n,
            n == line.len(),
            strip_bullets(line@) == strip_bullets(line@.skip(k as int)),
        decreases n - k,
    {
        assert(line@.skip(k as int).drop_first() =~= line@.skip(k + 1));
        k += 1;
    }
    assert(line@.skip(k as int) =~= line@.subrange(k as int, n as int));
    trimmed(&copy_range(line, k, n))
}

/// Reads the key points out of the model's reply.
pub fn read_key_points(response: String) -> (r: Vec<String>)
    ensures
        texts(r@) == key_points(cleaned(response@)),
{
    let clean = clean_chars(&chars_of(response.as_str()));
    let ls = keep_nonempty(&split_lines(&clean));
    let mut out: Vec<String> = Vec::new();
    let mut i: usize = 0;
    while i < ls.len()
        invariant
            i <= ls.len(),
            out.len() == i,
            forall|j: int| 0 <= j < i ==> (#[trigger] out@[j])@ == trim(strip_bullets(ls@[j]@)),
        decreases ls.len() - i,
    {
        let point = string_of(&strip_line(&ls[i]));
        out.push(point);
        i += 1;
    }
    assert(texts(out@) =~= key_points(cleaned(response@)));
    out
}

/// Makes the explanation from the model's three replies.
pub fn explanation(summary: String, key_points_reply: String, recommendations: String) -> (r:
    ContractExplanation)
    ensures
        r.summary@ == cleaned(summary@),
        texts(r.key_points@) == key_points(cleaned(key_points_reply@)),
        r.recommendations@ == cleaned(recommendations@),
{
    ContractExplanation {
        summary: clean_llm_response(summary),
        key_points: read_key_points(key_points_reply),
        recommendations: clean_llm_response(recommendations),
    }
}

} // verus!
