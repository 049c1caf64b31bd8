//! What the user types into a room, as the content of a message.

use vstd::prelude::*;
use matrix_sdk::ruma::events::room::message::FormattedBody;
use crate::events::{MessageType, RoomMessageEventContent};
use crate::line::text_view;

verus! {

/// The markup that `ruma` makes of a text that it reads as Markdown, or
/// `None` where it finds no Markdown formatting in the text.
pub uninterp spec fn markdown_markup(text: Seq<char>) -> Option<Seq<char>>;

/// Reads a text as Markdown.
///
/// Calls `FormattedBody::markdown` of `ruma`, as `matrix_sdk` hands it on,
/// and gives back the body of the formatted body that it returns, if it
/// returns one. The contract only gives the outcome its name.
#[verifier::external_body]
fn markdown(text: &str) -> (markup: Option<String>)
    ensures
        text_view(markup) == markdown_markup(text@),
{
    FormattedBody::markdown(text).map(|formatted| formatted.body)
}

/// The content of the text message that the user's input stands for: the
/// input is its body, and where the input is read as Markdown, its markup
/// is what the Markdown in it comes to.
pub open spec fn input_message(
    content: RoomMessageEventContent,
    input: Seq<char>,
    markup: Option<Seq<char>>,
) -> bool {
    &&& content.msgtype == MessageType::Text
    &&& content.body@ == input
    &&& text_view(content.formatted_body) == markup
    &&& content.url.is_none()
    &&& content.relates_to.is_none()
}

/// Makes a text message of what the user typed, read as Markdown if
/// `markdown_input` says so and as plain text if not.
pub fn input_content(input: String, markdown_input: bool) -> (content: RoomMessageEventContent)
    ensures
        input_message(
            content,
            input@,
            if markdown_input {
                markdown_markup(input@)
            } else {
                None
            },
        ),
{
    let markup = if markdown_input {
        markdown(input.as_str())
    } else {
        None
    };
    RoomMessageEventContent::text(input, markup)
}

} // verus!
