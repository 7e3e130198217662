//! The visible transcript: the conversation without its standing system
//! instruction, its markdown rendering, and the session subcommand that
//! views or clears the stored context.

use vstd::prelude::*;

use crate::args::SessionSubCommand;
use crate::message::content_text_spec;
use crate::message::message_views;
use crate::message::Message;
use crate::message::MessageView;
use crate::printer::printer_log;
use crate::printer::Printer;

verus! {

/// The turns shown to the user: every turn whose role is not `system`, in
/// order.
pub open spec fn visible_spec(msgs: Seq<MessageView>) -> Seq<MessageView>
    decreases msgs.len(),
{
    if msgs.len() == 0 {
        Seq::empty()
    } else {
        visible_spec(msgs.drop_last()) + if msgs.last().role == "system"@ {
            Seq::empty()
        } else {
            seq![msgs.last()]
        }
    }
}

/// The turns shown to the user (see [`visible_spec`]).
pub fn visible_messages(msgs: &Vec<Message>) -> (r: Vec<Message>)
    ensures
        message_views(r@) == visible_spec(message_views(msgs@)),
{
    let mut out: Vec<Message> = Vec::new();
    let mut i: usize = 0;
    #[verifier::loop_isolation(false)]
    while i < msgs.len()
        invariant
            i <= msgs.len(),
            message_views(out@) == visible_spec(message_views(msgs@).take(i as int)),
        decreases msgs.len() - i,
    {
        let ghost mv = message_views(msgs@);
        if !crate::text::str_eq(msgs[i].role.as_str(), "system") {
            out.push(msgs[i].clone());
        }
        proof {
            assert(mv.take(i + 1).drop_last() =~= mv.take(i as int));
            assert(mv.take(i + 1).last() == mv[i as int]);
            assert(message_views(out@) =~= visible_spec(mv.take(i + 1)));
        }
        i += 1;
    }
    proof {
        assert(message_views(msgs@).take(msgs@.len() as int) =~= message_views(msgs@));
    }
    out
}

/// The markdown rendering of a transcript: one `**role**: content` block per
/// turn.
pub open spec fn markdown_spec(msgs: Seq<MessageView>) -> Seq<char>
    decreases msgs.len(),
{
    if msgs.len() == 0 {
        Seq::empty()
    } else {
        markdown_spec(msgs.drop_last()) + "**"@ + msgs.last().role + "**: "@ + content_text_spec(
            msgs.last().content,
        ) + "\n\n"@
    }
}

/// Render a transcript as markdown (see [`markdown_spec`]).
pub fn markdown_from_messages(messages: Vec<Message>) -> (r: String)
    ensures
        r@ == markdown_spec(message_views(messages@)),
{
    let mut md = String::new();
    let mut i: usize = 0;
    #[verifier::loop_isolation(false)]
    while i < messages.len()
        invariant
            i <= messages.len(),
            md@ == markdown_spec(message_views(messages@).take(i as int)),
        decreases messages.len() - i,
    {
        let ghost mv = message_views(messages@);
        md.append("**");
        md.append(messages[i].role.as_str());
        md.append("**: ");
        let content = messages[i].content.to_string();
        md.append(content.as_str());
        md.append("\n\n");
        proof {
            assert(mv.take(i + 1).drop_last() =~= mv.take(i as int));
            assert(mv.take(i + 1).last() == mv[i as int]);
            assert(md@ =~= markdown_spec(mv.take(i + 1)));
        }
        i += 1;
    }
    proof {
        assert(message_views(messages@).take(messages@.len() as int) =~= message_views(messages@));
    }
    md
}

/// The role-content pairs the session view prints: each visible turn's role
/// and flattened content.
pub open spec fn view_pairs_spec(msgs: Seq<MessageView>) -> Seq<(Seq<char>, Seq<char>)> {
    visible_spec(msgs).map_values(
        |m: MessageView| (m.role, content_text_spec(m.content)),
    )
}

/// Run the session subcommand: `--view` prints each visible turn through the
/// printer; `--clear` (when not viewing) asks the caller to delete the
/// stored record, which is the returned flag.
pub fn run(subcmd: &SessionSubCommand, messages: &Vec<Message>, printer: &mut Printer) -> (clear:
    bool)
    ensures
        clear == (!subcmd.view && subcmd.clear),
        printer_log(*final(printer)) =~= if subcmd.view && *old(printer) is Mock {
            printer_log(*old(printer)) + view_pairs_spec(message_views(messages@))
        } else {
            printer_log(*final(printer))
        },
        *old(printer) is Mock ==> *final(printer) is Mock,
{
    if subcmd.view {
        let visible = visible_messages(messages);
        let ghost pairs = view_pairs_spec(message_views(messages@));
        let mut i: usize = 0;
        #[verifier::loop_isolation(false)]
        while i < visible.len()
            invariant
                i <= visible.len(),
                message_views(visible@) == visible_spec(message_views(messages@)),
                pairs == view_pairs_spec(message_views(messages@)),
                pairs.len() == visible@.len(),
                forall|j: int|
                    0 <= j < pairs.len() ==> #[trigger] pairs[j] == (
                        visible@[j]@.role,
                        content_text_spec(visible@[j]@.content),
                    ),
                *old(printer) is Mock ==> *printer is Mock,
                printer_log(*printer) =~= if *old(printer) is Mock {
                    printer_log(*old(printer)) + pairs.take(i as int)
                } else {
                    printer_log(*printer)
                },
            decreases visible.len() - i,
        {
            let content = visible[i].content.to_string();
            printer.print_message(visible[i].role.as_str(), content.as_str());
            proof {
                if *old(printer) is Mock {
                    assert(printer_log(*printer) =~= printer_log(*old(printer)) + pairs.take(
                        i + 1,
                    ));
                }
            }
            i += 1;
        }
        proof {
            assert(pairs.take(pairs.len() as int) =~= pairs);
        }
        return false;
    }
    subcmd.clear
}

} // verus!
