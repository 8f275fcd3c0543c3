//! The lines that the board writes to the virtual COM port.

use vstd::prelude::*;

verus! {

/// Sent when the LED goes on: `LED ON`, carriage return, line feed.
pub const LED_ON: [u8; 8] = [0x4c, 0x45, 0x44, 0x20, 0x4f, 0x4e, 0x0d, 0x0a];

/// Sent when the LED goes off: `LED OFF`, carriage return, line feed.
pub const LED_OFF: [u8; 9] = [0x4c, 0x45, 0x44, 0x20, 0x4f, 0x46, 0x46, 0x0d, 0x0a];

/// The bytes of an ASCII text, one per character.
pub open spec fn ascii(text: Seq<char>) -> Seq<u8> {
    text.map_values(|c: char| c as u8)
}

/// A line as the host expects it: printable ASCII, closed by one carriage
/// return and one line feed.
pub open spec fn is_line(bytes: Seq<u8>) -> bool {
    &&& bytes.len() >= 2
    &&& bytes[bytes.len() - 2] == 0x0d
    &&& bytes[bytes.len() - 1] == 0x0a
    &&& forall|i: int| 0 <= i < bytes.len() - 2 ==> 0x20 <= #[trigger] bytes[i] <= 0x7e
}

/// The two messages are, byte for byte, the ASCII of their texts.
pub proof fn messages_spell_their_text()
    ensures
        LED_ON@ == ascii("LED ON\r\n"@),
        LED_OFF@ == ascii("LED OFF\r\n"@),
        LED_ON@.len() == 8,
        LED_OFF@.len() == 9,
{
    reveal_strlit("LED ON\r\n");
    reveal_strlit("LED OFF\r\n");
}

/// Each message is one line, and the two differ.
pub proof fn messages_are_lines()
    ensures
        is_line(LED_ON@),
        is_line(LED_OFF@),
        LED_ON@ != LED_OFF@,
{
}

} // verus!
