//! Transcript printing: the colored console printer, and a recording printer
//! that tests observe instead. Only the final write to standard output is
//! outside the verified logic.

use std::io::Write;

use vstd::prelude::*;

use crate::message::Role;

verus! {

enum Colors {
    Blue,
    Red,
    Green,
}

/// The terminal escape prefix of each color.
spec fn color_prefix_spec(c: Colors) -> Seq<char> {
    match c {
        Colors::Blue => "\x1b[34m"@,
        Colors::Red => "\x1b[31m"@,
        Colors::Green => "\x1b[32m"@,
    }
}

impl Colors {
    fn get_color_prefix(&self) -> (r: &'static str)
        ensures
            r@ == color_prefix_spec(*self),
    {
        match self {
            Colors::Blue => "\x1b[34m",
            Colors::Red => "\x1b[31m",
            Colors::Green => "\x1b[32m",
        }
    }
}

/// The escape prefix a role is colored with: blue for the user, green for
/// the system, red for the assistant, none for anything else.
pub open spec fn role_color_prefix_spec(role: Seq<char>) -> Seq<char> {
    if role == Role::User.name_spec() {
        "\x1b[34m"@
    } else if role == Role::System.name_spec() {
        "\x1b[32m"@
    } else if role == Role::Assistant.name_spec() {
        "\x1b[31m"@
    } else {
        Seq::empty()
    }
}

/// One printed transcript line: the colored role, a reset code, and the
/// content.
pub open spec fn printed_line_spec(role: Seq<char>, content: Seq<char>) -> Seq<char> {
    role_color_prefix_spec(role) + role + "\x1b[0m: "@ + content
}

/// Relies on `writeln!` to `std::io::stdout`: prints the line to standard
/// output, followed by a newline.
#[verifier::external_body]
fn print_line(line: &str) {
    let _ = writeln!(std::io::stdout(), "{}", line);
}

/// The printer that writes to the terminal.
pub struct ConsolePrinter {}

impl ConsolePrinter {
    fn print_message(&self, role: &str, content: &str) {
        let mut line = String::new();
        let prefix: &str = if crate::text::str_eq(role, "user") {
            Colors::Blue.get_color_prefix()
        } else if crate::text::str_eq(role, "system") {
            Colors::Green.get_color_prefix()
        } else if crate::text::str_eq(role, "assistant") {
            Colors::Red.get_color_prefix()
        } else {
            ""
        };
        line.append(prefix);
        line.append(role);
        line.append("\x1b[0m: ");
        line.append(content);
        proof {
            reveal_strlit("");
            assert(line@ =~= printed_line_spec(role@, content@));
        }
        print_line(line.as_str());
    }
}

/// The pairs a recording printer holds, as character sequences.
pub open spec fn pair_views(pairs: Seq<(String, String)>) -> Seq<(Seq<char>, Seq<char>)> {
    pairs.map_values(|p: (String, String)| (p.0@, p.1@))
}

/// A printer that records what would have been printed.
pub struct MockPrinter {
    pub messages: Vec<(String, String)>,
}

impl MockPrinter {
    /// A recorder with nothing recorded.
    pub fn new() -> (r: MockPrinter)
        ensures
            pair_views(r.messages@) == Seq::<(Seq<char>, Seq<char>)>::empty(),
    {
        let r = MockPrinter { messages: Vec::new() };
        proof {
            assert(pair_views(r.messages@) =~= Seq::<(Seq<char>, Seq<char>)>::empty());
        }
        r
    }

    fn print_message(&mut self, role: &str, content: &str)
        ensures
            pair_views(final(self).messages@) =~= pair_views(old(self).messages@).push(
                (role@, content@),
            ),
    {
        self.messages.push((role.to_owned(), content.to_owned()));
        proof {
            assert(pair_views(self.messages@) =~= pair_views(old(self).messages@).push(
                (role@, content@),
            ));
        }
    }
}

/// Either real terminal output or the recorder.
pub enum Printer {
    Console(ConsolePrinter),
    Mock(MockPrinter),
}

/// What a printer has recorded: the console printer records nothing.
pub open spec fn printer_log(p: Printer) -> Seq<(Seq<char>, Seq<char>)> {
    match p {
        Printer::Console(_) => Seq::empty(),
        Printer::Mock(m) => pair_views(m.messages@),
    }
}

impl Printer {
    /// Print (or record) one role-content line.
    pub fn print_message(&mut self, role: &str, content: &str)
        ensures
            *old(self) is Console ==> *final(self) is Console,
            *old(self) is Mock ==> *final(self) is Mock,
            printer_log(*final(self)) =~= if *old(self) is Mock {
                printer_log(*old(self)).push((role@, content@))
            } else {
                Seq::empty()
            },
    {
        match self {
            Printer::Console(console_printer) => console_printer.print_message(role, content),
            Printer::Mock(mock_printer) => mock_printer.print_message(role, content),
        }
    }
}

} // verus!
