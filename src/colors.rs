//! Background colours for status lines.

use vstd::prelude::*;
use vstd::string::*;
use crate::text::str_eq;

verus! {

/// The escape sequence that starts text in the named background colour;
/// empty for a name that is not one of the seven colours.
pub open spec fn background_code(color: Seq<char>) -> Seq<char> {
    if color == "red"@ {
        "\x1b[41;1m"@
    } else if color == "green"@ {
        "\x1b[42;1m"@
    } else if color == "yellow"@ {
        "\x1b[43m"@
    } else if color == "blue"@ {
        "\x1b[44m"@
    } else if color == "magenta"@ {
        "\x1b[45m"@
    } else if color == "cyan"@ {
        "\x1b[46m"@
    } else if color == "white"@ {
        "\x1b[47m"@
    } else {
        seq![]
    }
}

/// `text` on the named background: the colour's escape sequence, the text,
/// and the reset sequence; unknown colour names leave the text plain.
pub open spec fn on_background(color: Seq<char>, text: Seq<char>) -> Seq<char> {
    if background_code(color).len() == 0 {
        text
    } else {
        background_code(color) + text + "\x1b[0m"@
    }
}

fn code_for(color: &str) -> (r: &'static str)
    ensures
        r@ == background_code(color@),
{
    proof {
        reveal_strlit("");
    }
    if str_eq(color, "red") {
        "\x1b[41;1m"
    } else if str_eq(color, "green") {
        "\x1b[42;1m"
    } else if str_eq(color, "yellow") {
        "\x1b[43m"
    } else if str_eq(color, "blue") {
        "\x1b[44m"
    } else if str_eq(color, "magenta") {
        "\x1b[45m"
    } else if str_eq(color, "cyan") {
        "\x1b[46m"
    } else if str_eq(color, "white") {
        "\x1b[47m"
    } else {
        assert(""@ =~= seq![]);
        ""
    }
}

/// `text` on the background colour named `color`.
pub fn output_background_color(color: &str, text: &str) -> (r: String)
    ensures
        r@ == on_background(color@, text@),
{
    let code = code_for(color);
    if code.unicode_len() == 0 {
        String::from_str(text)
    } else {
        String::from_str(code).concat(text).concat("\x1b[0m")
    }
}

/// The message shown for a choice that no option answers: `message`, or a
/// standard one when it is empty, on a red background.
pub fn invalid_choice_text(message: &str) -> (r: String)
    ensures
        r@ == on_background(
            "red"@,
            if message@.len() == 0 {
                "Invalid choice, please try again."@
            } else {
                message@
            },
        ),
{
    if message.unicode_len() == 0 {
        output_background_color("red", "Invalid choice, please try again.")
    } else {
        output_background_color("red", message)
    }
}

} // verus!
