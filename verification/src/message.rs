//! Rendering of a batch as one outbound message.
//!
//! Each item becomes one line: its text, preceded by `From ` and the sender
//! and `: ` where a sender is known. The lines stand in arrival order with one
//! blank line between neighbours.

use vstd::prelude::*;
use vstd::string::StringExecFns;

use crate::item::{Item, ItemView};

verus! {

/// What precedes the sender in a line that names one: `From `.
pub open spec fn origin_prefix() -> Seq<char> {
    seq!['F', 'r', 'o', 'm', ' ']
}

/// What stands between the sender and the text: a colon and a space.
pub open spec fn origin_suffix() -> Seq<char> {
    seq![':', ' ']
}

/// What stands between two lines of a message: two line feeds, so that one
/// blank line shows.
pub open spec fn separator() -> Seq<char> {
    seq!['\n', '\n']
}

/// The line that one item contributes to a message.
pub open spec fn rendered_line(item: ItemView) -> Seq<char> {
    match item.origin {
        Some(origin) => origin_prefix() + origin + origin_suffix() + item.text,
        None => item.text,
    }
}

/// The message that a batch makes: the lines of its items in order, any two
/// neighbours parted by [`separator`]. The empty batch makes the empty text.
pub open spec fn composed(items: Seq<ItemView>) -> Seq<char>
    decreases items.len(),
{
    if items.len() == 0 {
        Seq::empty()
    } else if items.len() == 1 {
        rendered_line(items[0])
    } else {
        composed(items.drop_last()) + separator() + rendered_line(items.last())
    }
}

/// The mathematical values of a sequence of items, in the same order.
pub open spec fn item_views(items: Seq<Item>) -> Seq<ItemView> {
    Seq::new(items.len(), |i: int| items[i]@)
}

/// Renders one item as its line of a message.
pub fn render_line(item: &Item) -> (line: String)
    ensures
        line@ == rendered_line(item@),
{
    match item.origin() {
        Some(origin) => {
            proof {
                reveal_strlit("From ");
                reveal_strlit(": ");
                assert("From "@ =~= origin_prefix());
                assert(": "@ =~= origin_suffix());
            }
            let mut line = String::from_str("From ");
            line.append(origin);
            line.append(": ");
            line.append(item.text());
            line
        },
        None => String::from_str(item.text()),
    }
}

/// Renders a batch as one message.
pub fn compose(items: &Vec<Item>) -> (text: String)
    ensures
        text@ == composed(item_views(items@)),
{
    let ghost views = item_views(items@);
    let mut text = String::new();
    let mut i: usize = 0;
    while i < items.len()
        invariant
            i <= items.len(),
            views == item_views(items@),
            text@ == composed(views.take(i as int)),
        decreases items.len() - i,
    {
        if i > 0 {
            proof {
                reveal_strlit("\n\n");
                assert("\n\n"@ =~= separator());
            }
            text.append("\n\n");
        }
        let line = render_line(&items[i]);
        text.append(line.as_str());
        proof {
            let next = views.take(i + 1);
            assert(next.drop_last() =~= views.take(i as int));
            assert(next.last() == items@[i as int]@);
        }
        i += 1;
    }
    proof {
        assert(views.take(items.len() as int) =~= views);
    }
    text
}

/// A message of one item is that item's line, with no separator.
pub proof fn lemma_composed_single(item: ItemView)
    ensures
        composed(seq![item]) == rendered_line(item),
{
}

/// Two batches put end to end make the two messages put end to end, with one
/// separator between them: composing keeps the order of arrival and puts
/// exactly one blank line between any two neighbours.
pub proof fn lemma_composed_concat(first: Seq<ItemView>, second: Seq<ItemView>)
    requires
        first.len() > 0,
        second.len() > 0,
    ensures
        composed(first + second) == composed(first) + separator() + composed(second),
    decreases second.len(),
{
    let whole = first + second;
    assert(whole.drop_last() =~= first + second.drop_last());
    assert(whole.last() == second.last());
    if second.len() == 1 {
        assert(first + second.drop_last() =~= first);
    } else {
        lemma_composed_concat(first, second.drop_last());
        assert(composed(whole) =~= composed(first) + separator() + composed(second));
    }
}

} // verus!
