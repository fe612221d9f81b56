//! Yes-or-no questions: what is asked, and what an answer means.

use vstd::prelude::*;

verus! {

/// A text without the white space at its two ends, as `str::trim` gives it.
pub uninterp spec fn trimmed(text: Seq<char>) -> Seq<char>;

/// A text in lower case, as `str::to_lowercase` gives it.
pub uninterp spec fn lowercased(text: Seq<char>) -> Seq<char>;

/// Calls `str::trim`. The contract only gives the result its name: it is a
/// function of the text.
#[verifier::external_body]
fn trim(text: &str) -> (inner: &str)
    ensures
        inner@ == trimmed(text@),
{
    text.trim()
}

/// Calls `str::to_lowercase`. The contract only gives the result its name: it
/// is a function of the text.
#[verifier::external_body]
fn to_lowercase(text: &str) -> (lower: String)
    ensures
        lower@ == lowercased(text@),
{
    text.to_lowercase()
}

/// The question as it is put: the answer that an empty reply stands for is
/// the one in upper case.
pub open spec fn prompt_text(question: Seq<char>, default_answer: bool) -> Seq<char> {
    question + " ("@ + (if default_answer { "Y/n"@ } else { "y/N"@ }) + "): "@
}

/// What a reply means: that of its word, which is the reply without the
/// white space around it and in lower case.
pub open spec fn answer_of(reply: Seq<char>, default_answer: bool) -> Option<bool> {
    word_answer(lowercased(trimmed(reply)), default_answer)
}

/// What a word means: yes, no, the default where it is empty, or nothing
/// where it is anything else.
pub open spec fn word_answer(word: Seq<char>, default_answer: bool) -> Option<bool> {
    if word == "y"@ || word == "yes"@ {
        Some(true)
    } else if word == "n"@ || word == "no"@ {
        Some(false)
    } else if word == ""@ {
        Some(default_answer)
    } else {
        None
    }
}

/// Writes the question as it is put to the user.
pub fn prompt(question: &str, default_answer: bool) -> (text: String)
    ensures
        text@ == prompt_text(question@, default_answer),
{
    let mut text = question.to_owned();
    text.append(" (");
    if default_answer {
        text.append("Y/n");
    } else {
        text.append("y/N");
    }
    text.append("): ");
    text
}

fn is_word(word: &String, expected: &str) -> (same: bool)
    ensures
        same == (word@ == expected@),
{
    *word == expected.to_owned()
}

/// Reads a reply to a yes-or-no question. `None` asks for the question to be
/// put again.
pub fn interpret(reply: &str, default_answer: bool) -> (answer: Option<bool>)
    ensures
        answer == answer_of(reply@, default_answer),
{
    let word = to_lowercase(trim(reply));
    read_word(word.as_str(), default_answer)
}

/// Reads the word of a reply, which has no white space around it and is in
/// lower case: `y` and `yes` are a yes, `n` and `no` are a no, the empty
/// word is the default, and any other word is no answer.
pub fn read_word(word: &str, default_answer: bool) -> (answer: Option<bool>)
    ensures
        answer == word_answer(word@, default_answer),
{
    let word = word.to_owned();
    if is_word(&word, "y") || is_word(&word, "yes") {
        Some(true)
    } else if is_word(&word, "n") || is_word(&word, "no") {
        Some(false)
    } else if is_word(&word, "") {
        Some(default_answer)
    } else {
        None
    }
}

/// How many replies are passed over before one answers the question: all
/// of them where none does.
pub open spec fn unclear_replies(replies: Seq<String>, default_answer: bool) -> nat
    decreases replies.len(),
{
    if replies.len() == 0 || answer_of(replies[0]@, default_answer) is Some {
        0
    } else {
        1 + unclear_replies(replies.skip(1), default_answer)
    }
}

/// The answer that the replies give: that of the first reply that is one,
/// and the default where there is none.
pub open spec fn decided(replies: Seq<String>, default_answer: bool) -> bool
    decreases replies.len(),
{
    if replies.len() == 0 {
        default_answer
    } else {
        match answer_of(replies[0]@, default_answer) {
            Some(answer) => answer,
            None => decided(replies.skip(1), default_answer),
        }
    }
}

/// The question, put `times` times in a row.
pub open spec fn prompts(question: Seq<char>, default_answer: bool, times: nat) -> Seq<char>
    decreases times,
{
    if times == 0 {
        Seq::empty()
    } else {
        prompts(question, default_answer, (times - 1) as nat) + prompt_text(question, default_answer)
    }
}

/// Puts a yes-or-no question until a reply answers it. `replies` are the
/// lines that come in, in order; the question goes to `writer` before each
/// line is taken. The first reply that is an answer decides. Where the
/// replies run out the input has ended, which counts as an empty reply: the
/// default.
pub fn prompt_yn_with_io(
    question: &str,
    default_answer: bool,
    replies: &Vec<String>,
    writer: &mut String,
) -> (answer: bool)
    ensures
        answer == decided(replies@, default_answer),
        final(writer)@ == old(writer)@ + prompts(
            question@,
            default_answer,
            unclear_replies(replies@, default_answer) + 1,
        ),
{
    let mut i: usize = 0;
    assert(writer@ + prompts(question@, default_answer, 0) =~= writer@);
    assert(replies@.skip(0) =~= replies@);
    loop
        invariant
            0 <= i <= replies.len(),
            unclear_replies(replies@, default_answer) == i + unclear_replies(
                replies@.skip(i as int),
                default_answer,
            ),
            decided(replies@, default_answer) == decided(replies@.skip(i as int), default_answer),
            writer@ == old(writer)@ + prompts(question@, default_answer, i as nat),
        decreases replies.len() - i,
    {
        let text = prompt(question, default_answer);
        writer.append(text.as_str());
        assert(writer@ =~= old(writer)@ + prompts(question@, default_answer, (i + 1) as nat));
        if i >= replies.len() {
            return default_answer;
        }
        assert(replies@.skip(i as int)[0] == replies@[i as int]);
        assert(replies@.skip(i as int).skip(1) =~= replies@.skip(i + 1));
        match interpret(replies[i].as_str(), default_answer) {
            Some(answer) => {
                return answer;
            },
            None => {},
        }
        i = i + 1;
    }
}

} // verus!
