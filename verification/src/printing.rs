//! Receipt composition: from a sale, its items and a layout to the sequence
//! of operations that prints its tickets.

use vstd::prelude::*;
use vstd::string::StringExecFns;
use crate::identity::{format_identifier, identifier_text};
use crate::layout::{
    FontSize, HeaderLayout, HeaderLayoutView, Justify, PrintingLayout, PrintingLayoutView,
    SectionLayout,
};
use crate::models::{CartItem, CartItemView, Product, ProductView, Sale, SaleView};

verus! {

/// One operation of the printer.
#[derive(Debug, PartialEq, Eq)]
pub enum PrintOp {
    /// Select the magnification of the following text.
    SetFont(FontSize),
    /// Select the alignment of the following text.
    SetJustify(Justify),
    /// Write one line of text.
    Write(String),
    /// Feed one line.
    Feed,
    /// Print what was written and cut the paper.
    Cut,
}

/// Model of a [`PrintOp`].
pub enum PrintOpView {
    SetFont(FontSize),
    SetJustify(Justify),
    Write(Seq<char>),
    Feed,
    Cut,
}

impl View for PrintOp {
    type V = PrintOpView;

    open spec fn view(&self) -> PrintOpView {
        match self {
            PrintOp::SetFont(size) => PrintOpView::SetFont(*size),
            PrintOp::SetJustify(mode) => PrintOpView::SetJustify(*mode),
            PrintOp::Write(text) => PrintOpView::Write(text@),
            PrintOp::Feed => PrintOpView::Feed,
            PrintOp::Cut => PrintOpView::Cut,
        }
    }
}

impl DeepView for PrintOp {
    type V = PrintOpView;

    open spec fn deep_view(&self) -> PrintOpView {
        self@
    }
}

impl Clone for PrintOp {
    fn clone(&self) -> (copy: Self)
        ensures
            copy@ == self@,
    {
        match self {
            PrintOp::SetFont(size) => PrintOp::SetFont(*size),
            PrintOp::SetJustify(mode) => PrintOp::SetJustify(*mode),
            PrintOp::Write(text) => PrintOp::Write(text.clone()),
            PrintOp::Feed => PrintOp::Feed,
            PrintOp::Cut => PrintOp::Cut,
        }
    }
}

/// A text written in a style: the style is applied, the text written, and
/// the magnification set back before anything else is printed.
pub open spec fn styled_text(font_size: FontSize, justify: Justify, text: Seq<char>) -> Seq<
    PrintOpView,
> {
    seq![
        PrintOpView::SetFont(font_size),
        PrintOpView::SetJustify(justify),
        PrintOpView::Write(text),
        PrintOpView::SetFont(FontSize::printer_default()),
    ]
}

/// A section of a ticket: nothing when it is disabled, else its styled text
/// followed by a line feed.
pub open spec fn section_block(layout: SectionLayout, text: Seq<char>) -> Seq<PrintOpView> {
    if layout.enabled {
        styled_text(layout.font_size, layout.justify, text).push(PrintOpView::Feed)
    } else {
        Seq::empty()
    }
}

/// The header of a ticket: the fixed text of the layout.
pub open spec fn header_block(layout: HeaderLayoutView) -> Seq<PrintOpView> {
    section_block(layout.section(), layout.content)
}

/// The body of a ticket for one unit of `item`: the name it was sold under.
pub open spec fn body_block(layout: SectionLayout, item: CartItemView) -> Seq<PrintOpView> {
    section_block(layout, item.name)
}

/// The text of the footer: `#`, the sale's identifier, ` - `, the sale's time.
pub open spec fn footer_text(sale: SaleView) -> Seq<char> {
    seq!['#'] + identifier_text(sale.id) + seq![' ', '-', ' '] + sale.sale_time.text()
}

/// The footer of a ticket.
pub open spec fn footer_block(layout: SectionLayout, sale: SaleView) -> Seq<PrintOpView> {
    section_block(layout, footer_text(sale))
}

/// `block`, `times` times in a row; nothing when `times` is not positive.
pub open spec fn repeated(block: Seq<PrintOpView>, times: int) -> Seq<PrintOpView>
    decreases times,
{
    if times <= 0 {
        Seq::empty()
    } else {
        repeated(block, times - 1) + block
    }
}

/// The ticket of one unit of `item` in split mode.
pub open spec fn split_ticket(layout: PrintingLayoutView, sale: SaleView, item: CartItemView) -> Seq<
    PrintOpView,
> {
    header_block(layout.header) + body_block(layout.body, item) + footer_block(
        layout.footer,
        sale,
    ).push(PrintOpView::Cut)
}

/// What split mode prints for one entry of the sale: one ticket per unit.
pub open spec fn split_entry(layout: PrintingLayoutView, sale: SaleView) -> spec_fn(
    (CartItemView, ProductView),
) -> Seq<PrintOpView> {
    |entry: (CartItemView, ProductView)|
        repeated(split_ticket(layout, sale, entry.0), entry.0.quantity as int)
}

/// Split mode: the tickets of all entries, in cart order.
pub open spec fn split_tickets(
    layout: PrintingLayoutView,
    sale: SaleView,
    items: Seq<(CartItemView, ProductView)>,
) -> Seq<PrintOpView> {
    items.flat_map(split_entry(layout, sale))
}

/// Appends one operation to a tape.
pub fn emit(ops: &mut Vec<PrintOp>, op: PrintOp)
    ensures
        final(ops).deep_view() == old(ops).deep_view().push(op@),
{
    ops.push(op);
}

/// Appends a text in a style: applies the style, writes the text, and sets
/// the magnification back.
pub fn with_layout(ops: &mut Vec<PrintOp>, layout: &SectionLayout, text: String)
    ensures
        final(ops).deep_view() == old(ops).deep_view() + styled_text(
            layout.font_size,
            layout.justify,
            text@,
        ),
{
    emit(ops, PrintOp::SetFont(layout.font_size));
    emit(ops, PrintOp::SetJustify(layout.justify));
    emit(ops, PrintOp::Write(text));
    emit(ops, PrintOp::SetFont(FontSize::Small));
}

/// Appends the header of a ticket.
pub fn print_header(ops: &mut Vec<PrintOp>, layout: &HeaderLayout)
    ensures
        final(ops).deep_view() == old(ops).deep_view() + header_block(layout@),
{
    if !layout.enabled {
        return ;
    }
    let section = SectionLayout::from(layout.clone());
    with_layout(ops, &section, layout.content.clone());
    emit(ops, PrintOp::Feed);
}

/// Appends the body of a ticket for one unit of `item`.
pub fn print_body(ops: &mut Vec<PrintOp>, layout: &SectionLayout, item: &CartItem)
    ensures
        final(ops).deep_view() == old(ops).deep_view() + body_block(*layout, item@),
{
    if !layout.enabled {
        return ;
    }
    with_layout(ops, layout, item.name.clone());
    emit(ops, PrintOp::Feed);
}

/// The footer line of a sale.
pub fn footer_line(sale: &Sale) -> (text: String)
    ensures
        text@ == footer_text(sale@),
{
    let id = format_identifier(sale.id);
    let time = sale.sale_time.format();
    let text = String::from_str("#").concat(id.as_str()).concat(" - ").concat(time.as_str());
    proof {
        reveal_strlit("#");
        reveal_strlit(" - ");
    }
    text
}

/// Appends the footer of a ticket.
pub fn print_footer(ops: &mut Vec<PrintOp>, layout: &SectionLayout, sale: &Sale)
    ensures
        final(ops).deep_view() == old(ops).deep_view() + footer_block(*layout, sale@),
{
    if !layout.enabled {
        return ;
    }
    with_layout(ops, layout, footer_line(sale));
    emit(ops, PrintOp::Feed);
}

/// Appends one ticket of split mode: header, body, footer, cut.
pub fn print_split_ticket(
    ops: &mut Vec<PrintOp>,
    layout: &PrintingLayout,
    sale: &Sale,
    item: &CartItem,
)
    ensures
        final(ops).deep_view() == old(ops).deep_view() + split_ticket(layout@, sale@, item@),
{
    print_header(ops, &layout.header);
    print_body(ops, &layout.body, item);
    print_footer(ops, &layout.footer, sale);
    emit(ops, PrintOp::Cut);
}

/// Appends the tickets of split mode: for every item, in cart order, one
/// ticket per unit sold.
pub fn print_split_tickets(
    ops: &mut Vec<PrintOp>,
    layout: &PrintingLayout,
    sale: &Sale,
    items: &Vec<(CartItem, Product)>,
)
    ensures
        final(ops).deep_view() == old(ops).deep_view() + split_tickets(
            layout@,
            sale@,
            items.deep_view(),
        ),
{
    let ghost entries = items.deep_view();
    let ghost each = split_entry(layout@, sale@);
    let mut i: usize = 0;
    while i < items.len()
        invariant
            i <= items.len(),
            entries == items.deep_view(),
            each == split_entry(layout@, sale@),
            ops.deep_view() == old(ops).deep_view() + entries.take(i as int).flat_map(each),
        decreases items.len() - i,
    {
        let item = &items[i].0;
        let ghost before = ops.deep_view();
        let ghost ticket = split_ticket(layout@, sale@, item@);
        let mut unit: i64 = 0;
        while unit < item.quantity
            invariant
                0 <= unit,
                unit <= item.quantity || unit == 0,
                ticket == split_ticket(layout@, sale@, item@),
                ops.deep_view() == before + repeated(ticket, unit as int),
            decreases item.quantity - unit,
        {
            print_split_ticket(ops, layout, sale, item);
            unit = unit + 1;
        }
        proof {
            entries.lemma_flat_map_take_append(each, i as int);
        }
        i = i + 1;
    }
    assert(entries.take(items.len() as int) =~= entries);
}

/// The categories of the sale's products, each once, in the order in which
/// the cart first names them.
pub open spec fn categories(items: Seq<(CartItemView, ProductView)>) -> Seq<Seq<char>>
    decreases items.len(),
{
    if items.len() == 0 {
        Seq::empty()
    } else {
        let earlier = categories(items.drop_last());
        let category = items.last().1.category;
        if earlier.contains(category) {
            earlier
        } else {
            earlier.push(category)
        }
    }
}

/// What an entry adds to the ticket of `category`: one body per unit if its
/// product is of that category, else nothing.
pub open spec fn group_entry(body: SectionLayout, category: Seq<char>) -> spec_fn(
    (CartItemView, ProductView),
) -> Seq<PrintOpView> {
    |entry: (CartItemView, ProductView)|
        if entry.1.category == category {
            repeated(body_block(body, entry.0), entry.0.quantity as int)
        } else {
            Seq::empty()
        }
}

/// The ticket of one category in grouped mode: the header once, a body for
/// every unit of every item of the category in cart order, the footer once,
/// and a cut.
pub open spec fn grouped_ticket(
    layout: PrintingLayoutView,
    sale: SaleView,
    items: Seq<(CartItemView, ProductView)>,
    category: Seq<char>,
) -> Seq<PrintOpView> {
    header_block(layout.header) + items.flat_map(group_entry(layout.body, category))
        + footer_block(layout.footer, sale).push(PrintOpView::Cut)
}

/// The ticket of each category of a sale.
pub open spec fn group_of(
    layout: PrintingLayoutView,
    sale: SaleView,
    items: Seq<(CartItemView, ProductView)>,
) -> spec_fn(Seq<char>) -> Seq<PrintOpView> {
    |category: Seq<char>| grouped_ticket(layout, sale, items, category)
}

/// Grouped mode: one ticket per category, in the order of [`categories`].
pub open spec fn grouped_tickets(
    layout: PrintingLayoutView,
    sale: SaleView,
    items: Seq<(CartItemView, ProductView)>,
) -> Seq<PrintOpView> {
    categories(items).flat_map(group_of(layout, sale, items))
}

/// The operations that print the tickets of a sale.
pub open spec fn composed(
    sale: SaleView,
    items: Seq<(CartItemView, ProductView)>,
    layout: PrintingLayoutView,
) -> Seq<PrintOpView> {
    if layout.group_tickets_by_category {
        grouped_tickets(layout, sale, items)
    } else {
        split_tickets(layout, sale, items)
    }
}

/// A category is listed exactly if some entry of the sale has it.
pub proof fn lemma_categories_cover(items: Seq<(CartItemView, ProductView)>, category: Seq<char>)
    ensures
        categories(items).contains(category) <==> exists|k: int|
            0 <= k < items.len() && (#[trigger] items[k]).1.category == category,
    decreases items.len(),
{
    if items.len() > 0 {
        let front = items.drop_last();
        lemma_categories_cover(front, category);
        let earlier = categories(front);
        if categories(items).contains(category) {
            if earlier.contains(category) {
                let k = choose|k: int|
                    0 <= k < front.len() && (#[trigger] front[k]).1.category == category;
                assert(items[k] == front[k]);
            } else {
                assert(earlier.push(items.last().1.category).contains(category));
                assert(items.last().1.category == category);
                assert(items[items.len() - 1].1.category == category);
            }
        }
        if exists|k: int| 0 <= k < items.len() && (#[trigger] items[k]).1.category == category {
            let k = choose|k: int|
                0 <= k < items.len() && (#[trigger] items[k]).1.category == category;
            if k < front.len() {
                assert(front[k] == items[k]);
                assert(earlier.contains(category));
                if !earlier.contains(items.last().1.category) {
                    let at = choose|at: int| 0 <= at < earlier.len() && earlier[at] == category;
                    assert(earlier.push(items.last().1.category)[at] == category);
                }
            } else {
                if !earlier.contains(category) {
                    assert(earlier.push(category)[earlier.len() as int] == category);
                }
            }
        }
    }
}

/// No category is listed twice.
pub proof fn lemma_categories_distinct(items: Seq<(CartItemView, ProductView)>)
    ensures
        categories(items).no_duplicates(),
    decreases items.len(),
{
    if items.len() > 0 {
        lemma_categories_distinct(items.drop_last());
    }
}

/// Whether an entry before `index` has the category of the entry at `index`.
fn category_seen_before(items: &Vec<(CartItem, Product)>, index: usize) -> (seen: bool)
    requires
        index < items.len(),
    ensures
        seen == categories(items.deep_view().take(index as int)).contains(
            items[index as int].1@.category,
        ),
{
    let ghost earlier = items.deep_view().take(index as int);
    let ghost category = items[index as int].1@.category;
    let mut k: usize = 0;
    while k < index
        invariant
            k <= index < items.len(),
            earlier == items.deep_view().take(index as int),
            category == items[index as int].1@.category,
            forall|j: int| 0 <= j < k ==> (#[trigger] earlier[j]).1.category != category,
        decreases index - k,
    {
        if items[k].1.category == items[index].1.category {
            proof {
                assert(earlier[k as int] == (items[k as int].0@, items[k as int].1@));
                lemma_categories_cover(earlier, category);
            }
            return true;
        }
        k = k + 1;
    }
    proof {
        lemma_categories_cover(earlier, category);
    }
    false
}

/// Appends the ticket of one category in grouped mode.
pub fn print_group_ticket(
    ops: &mut Vec<PrintOp>,
    layout: &PrintingLayout,
    sale: &Sale,
    items: &Vec<(CartItem, Product)>,
    category: &String,
)
    ensures
        final(ops).deep_view() == old(ops).deep_view() + grouped_ticket(
            layout@,
            sale@,
            items.deep_view(),
            category@,
        ),
{
    let ghost entries = items.deep_view();
    let ghost each = group_entry(layout.body, category@);
    print_header(ops, &layout.header);
    let ghost start = ops.deep_view();
    let mut i: usize = 0;
    while i < items.len()
        invariant
            i <= items.len(),
            entries == items.deep_view(),
            each == group_entry(layout.body, category@),
            ops.deep_view() == start + entries.take(i as int).flat_map(each),
        decreases items.len() - i,
    {
        let ghost before = ops.deep_view();
        proof {
            entries.lemma_flat_map_take_append(each, i as int);
        }
        if items[i].1.category == *category {
            let item = &items[i].0;
            let ghost body = body_block(layout.body, item@);
            let mut unit: i64 = 0;
            while unit < item.quantity
                invariant
                    0 <= unit,
                    unit <= item.quantity || unit == 0,
                    body == body_block(layout.body, item@),
                    ops.deep_view() == before + repeated(body, unit as int),
                decreases item.quantity - unit,
            {
                print_body(ops, &layout.body, item);
                unit = unit + 1;
            }
        }
        i = i + 1;
    }
    assert(entries.take(items.len() as int) =~= entries);
    print_footer(ops, &layout.footer, sale);
    emit(ops, PrintOp::Cut);
}

/// Appends the tickets of grouped mode: one ticket per category.
pub fn print_grouped_tickets(
    ops: &mut Vec<PrintOp>,
    layout: &PrintingLayout,
    sale: &Sale,
    items: &Vec<(CartItem, Product)>,
)
    ensures
        final(ops).deep_view() == old(ops).deep_view() + grouped_tickets(
            layout@,
            sale@,
            items.deep_view(),
        ),
{
    let ghost entries = items.deep_view();
    let ghost group = group_of(layout@, sale@, entries);
    let mut i: usize = 0;
    while i < items.len()
        invariant
            i <= items.len(),
            entries == items.deep_view(),
            group == group_of(layout@, sale@, entries),
            ops.deep_view() == old(ops).deep_view() + categories(entries.take(i as int)).flat_map(
                group,
            ),
        decreases items.len() - i,
    {
        let ghost earlier = categories(entries.take(i as int));
        let ghost category = items[i as int].1@.category;
        proof {
            assert(entries.take(i + 1).drop_last() =~= entries.take(i as int));
        }
        if !category_seen_before(items, i) {
            print_group_ticket(ops, layout, sale, items, &items[i].1.category);
            proof {
                earlier.lemma_flat_map_push(group, category);
            }
        }
        i = i + 1;
    }
    assert(entries.take(items.len() as int) =~= entries);
}

/// Composes the operations that print the tickets of a sale: one ticket per
/// unit sold, or, where the layout groups by category, one per category.
pub fn compose(sale: &Sale, items: &Vec<(CartItem, Product)>, layout: &PrintingLayout) -> (ops:
    Vec<PrintOp>)
    ensures
        ops.deep_view() == composed(sale@, items.deep_view(), layout@),
{
    let mut ops: Vec<PrintOp> = Vec::new();
    if layout.group_tickets_by_category {
        print_grouped_tickets(&mut ops, layout, sale, items);
    } else {
        print_split_tickets(&mut ops, layout, sale, items);
    }
    ops
}

/// The write at `at` is wrapped in its style: the two operations before it
/// select magnification and alignment, and right after it the magnification
/// is set back and a line is fed.
pub open spec fn write_is_wrapped(ops: Seq<PrintOpView>, at: int) -> bool {
    &&& 2 <= at
    &&& at + 2 < ops.len()
    &&& ops[at - 2] is SetFont
    &&& ops[at - 1] is SetJustify
    &&& ops[at + 1] == PrintOpView::SetFont(FontSize::printer_default())
    &&& ops[at + 2] == PrintOpView::Feed
}

/// No styling leaks: every write of the sequence is wrapped in its style.
pub open spec fn styles_contained(ops: Seq<PrintOpView>) -> bool {
    forall|at: int| 0 <= at < ops.len() && (#[trigger] ops[at]) is Write ==> write_is_wrapped(ops, at)
}

/// Two sequences that leak no styling leak none when joined.
pub proof fn lemma_joined_contained(first: Seq<PrintOpView>, second: Seq<PrintOpView>)
    requires
        styles_contained(first),
        styles_contained(second),
    ensures
        styles_contained(first + second),
{
    let joined = first + second;
    assert forall|at: int| 0 <= at < joined.len() && (#[trigger] joined[at]) is Write implies write_is_wrapped(
        joined,
        at,
    ) by {
        if at < first.len() {
            assert(first[at] is Write);
            assert(write_is_wrapped(first, at));
        } else {
            let within = at - first.len();
            assert(second[within] is Write);
            assert(write_is_wrapped(second, within));
            assert(joined[at - 2] == second[within - 2]);
            assert(joined[at - 1] == second[within - 1]);
            assert(joined[at + 1] == second[within + 1]);
            assert(joined[at + 2] == second[within + 2]);
        }
    }
}

/// A repeated sequence that leaks no styling leaks none.
pub proof fn lemma_repeated_contained(block: Seq<PrintOpView>, times: int)
    requires
        styles_contained(block),
    ensures
        styles_contained(repeated(block, times)),
    decreases times,
{
    if times > 0 {
        lemma_repeated_contained(block, times - 1);
        lemma_joined_contained(repeated(block, times - 1), block);
    }
}

/// Sequences that leak no styling leak none when put one after the other.
pub proof fn lemma_flat_map_contained<A>(items: Seq<A>, each: spec_fn(A) -> Seq<PrintOpView>)
    requires
        forall|i: int| 0 <= i < items.len() ==> styles_contained(#[trigger] each(items[i])),
    ensures
        styles_contained(items.flat_map(each)),
    decreases items.len(),
{
    if items.len() == 0 {
        assert(items.flat_map(each) =~= Seq::<PrintOpView>::empty());
    } else {
        let front = items.drop_last();
        assert(items =~= front.push(items.last()));
        assert forall|i: int| 0 <= i < front.len() implies styles_contained(
            #[trigger] each(front[i]),
        ) by {
            assert(front[i] == items[i]);
        }
        lemma_flat_map_contained(front, each);
        front.lemma_flat_map_push(each, items.last());
        assert(styles_contained(each(items[items.len() - 1])));
        lemma_joined_contained(front.flat_map(each), each(items.last()));
    }
}

/// A section leaks no styling.
pub proof fn lemma_section_contained(layout: SectionLayout, text: Seq<char>)
    ensures
        styles_contained(section_block(layout, text)),
{
}

/// No styling leaks from one section into the next: in the operations
/// composed for any sale under any layout, every write is wrapped in the
/// style of its own section.
pub proof fn lemma_no_style_leak(
    sale: SaleView,
    items: Seq<(CartItemView, ProductView)>,
    layout: PrintingLayoutView,
)
    ensures
        styles_contained(composed(sale, items, layout)),
{
    let cut = seq![PrintOpView::Cut];
    let header = header_block(layout.header);
    let footer = footer_block(layout.footer, sale);
    lemma_section_contained(layout.header.section(), layout.header.content);
    lemma_section_contained(layout.footer, footer_text(sale));
    lemma_joined_contained(footer, cut);
    assert(footer.push(PrintOpView::Cut) =~= footer + cut);
    if layout.group_tickets_by_category {
        let group = group_of(layout, sale, items);
        let names = categories(items);
        assert forall|i: int| 0 <= i < names.len() implies styles_contained(
            #[trigger] group(names[i]),
        ) by {
            let each = group_entry(layout.body, names[i]);
            assert forall|k: int| 0 <= k < items.len() implies styles_contained(
                #[trigger] each(items[k]),
            ) by {
                lemma_section_contained(layout.body, items[k].0.name);
                lemma_repeated_contained(
                    body_block(layout.body, items[k].0),
                    items[k].0.quantity as int,
                );
            }
            lemma_flat_map_contained(items, each);
            lemma_joined_contained(header, items.flat_map(each));
            lemma_joined_contained(header + items.flat_map(each), footer.push(PrintOpView::Cut));
        }
        lemma_flat_map_contained(names, group);
    } else {
        let each = split_entry(layout, sale);
        assert forall|k: int| 0 <= k < items.len() implies styles_contained(
            #[trigger] each(items[k]),
        ) by {
            let body = body_block(layout.body, items[k].0);
            lemma_section_contained(layout.body, items[k].0.name);
            lemma_joined_contained(header, body);
            lemma_joined_contained(header + body, footer.push(PrintOpView::Cut));
            lemma_repeated_contained(
                split_ticket(layout, sale, items[k].0),
                items[k].0.quantity as int,
            );
        }
        lemma_flat_map_contained(items, each);
    }
}

/// The number of cuts in a sequence of operations: the number of tickets
/// that it prints.
pub open spec fn cuts(ops: Seq<PrintOpView>) -> int
    decreases ops.len(),
{
    if ops.len() == 0 {
        0
    } else {
        cuts(ops.drop_last()) + if ops.last() is Cut {
            1int
        } else {
            0int
        }
    }
}

/// The number of units sold: the sum of the quantities, a quantity that is
/// not positive counting for nothing.
pub open spec fn units_sold(items: Seq<(CartItemView, ProductView)>) -> int
    decreases items.len(),
{
    if items.len() == 0 {
        0
    } else {
        units_sold(items.drop_last()) + if items.last().0.quantity > 0 {
            items.last().0.quantity as int
        } else {
            0int
        }
    }
}

/// The sum of `count` over `items`.
pub open spec fn total_of<A>(items: Seq<A>, count: spec_fn(A) -> int) -> int
    decreases items.len(),
{
    if items.len() == 0 {
        0
    } else {
        total_of(items.drop_last(), count) + count(items.last())
    }
}

/// The cuts of two sequences add up when the sequences are joined.
pub proof fn lemma_cuts_joined(first: Seq<PrintOpView>, second: Seq<PrintOpView>)
    ensures
        cuts(first + second) == cuts(first) + cuts(second),
    decreases second.len(),
{
    if second.len() == 0 {
        assert(first + second =~= first);
    } else {
        assert((first + second).drop_last() =~= first + second.drop_last());
        lemma_cuts_joined(first, second.drop_last());
    }
}

/// A section holds no cut.
pub proof fn lemma_section_cuts(layout: SectionLayout, text: Seq<char>)
    ensures
        cuts(section_block(layout, text)) == 0,
{
    reveal_with_fuel(cuts, 6);
}

/// A block repeated holds the cuts of the block as often as it is repeated,
/// for a block with one cut and for a block with none.
pub proof fn lemma_cuts_repeated(block: Seq<PrintOpView>, times: int)
    requires
        cuts(block) == 0 || cuts(block) == 1,
    ensures
        cuts(repeated(block, times)) == if times > 0 && cuts(block) == 1 {
            times
        } else {
            0
        },
    decreases times,
{
    if times > 0 {
        lemma_cuts_repeated(block, times - 1);
        lemma_cuts_joined(repeated(block, times - 1), block);
    }
}

/// The cuts of pieces that hold none or one each add up to the number of
/// pieces that hold one.
proof fn lemma_cuts_flat_map<A>(
    items: Seq<A>,
    each: spec_fn(A) -> Seq<PrintOpView>,
    count: spec_fn(A) -> int,
)
    requires
        forall|i: int| 0 <= i < items.len() ==> cuts(#[trigger] each(items[i])) == count(items[i]),
    ensures
        cuts(items.flat_map(each)) == total_of(items, count),
    decreases items.len(),
{
    if items.len() == 0 {
        assert(items.flat_map(each) =~= Seq::<PrintOpView>::empty());
    } else {
        let front = items.drop_last();
        assert(items =~= front.push(items.last()));
        assert forall|i: int| 0 <= i < front.len() implies cuts(#[trigger] each(front[i])) == count(
            front[i],
        ) by {
            assert(front[i] == items[i]);
        }
        lemma_cuts_flat_map(front, each, count);
        front.lemma_flat_map_push(each, items.last());
        lemma_cuts_joined(front.flat_map(each), each(items.last()));
        assert(cuts(each(items[items.len() - 1])) == count(items[items.len() - 1]));
    }
}

/// Split mode prints one ticket per unit sold, and grouped mode one ticket
/// per category: the composed operations hold that many cuts.
pub proof fn lemma_ticket_count(
    sale: SaleView,
    items: Seq<(CartItemView, ProductView)>,
    layout: PrintingLayoutView,
)
    ensures
        cuts(composed(sale, items, layout)) == if layout.group_tickets_by_category {
            categories(items).len() as int
        } else {
            units_sold(items)
        },
{
    let header = header_block(layout.header);
    let footer = footer_block(layout.footer, sale);
    let closing = footer.push(PrintOpView::Cut);
    lemma_section_cuts(layout.header.section(), layout.header.content);
    lemma_section_cuts(layout.footer, footer_text(sale));
    assert(cuts(closing) == 1) by {
        assert(closing.drop_last() =~= footer);
    }
    if layout.group_tickets_by_category {
        let group = group_of(layout, sale, items);
        let names = categories(items);
        let one = |name: Seq<char>| 1int;
        assert forall|i: int| 0 <= i < names.len() implies cuts(#[trigger] group(names[i])) == one(
            names[i],
        ) by {
            let each = group_entry(layout.body, names[i]);
            let none = |entry: (CartItemView, ProductView)| 0int;
            assert forall|k: int| 0 <= k < items.len() implies cuts(#[trigger] each(items[k]))
                == none(items[k]) by {
                lemma_section_cuts(layout.body, items[k].0.name);
                lemma_cuts_repeated(
                    body_block(layout.body, items[k].0),
                    items[k].0.quantity as int,
                );
            }
            lemma_cuts_flat_map(items, each, none);
            lemma_total_of_constant(items, none, 0);
            lemma_cuts_joined(header, items.flat_map(each));
            lemma_cuts_joined(header + items.flat_map(each), closing);
        }
        lemma_cuts_flat_map(names, group, one);
        lemma_total_of_constant(names, one, 1);
    } else {
        let each = split_entry(layout, sale);
        let units = |entry: (CartItemView, ProductView)|
            if entry.0.quantity > 0 {
                entry.0.quantity as int
            } else {
                0int
            };
        assert forall|k: int| 0 <= k < items.len() implies cuts(#[trigger] each(items[k]))
            == units(items[k]) by {
            let body = body_block(layout.body, items[k].0);
            lemma_section_cuts(layout.body, items[k].0.name);
            lemma_cuts_joined(header, body);
            lemma_cuts_joined(header + body, closing);
            lemma_cuts_repeated(
                split_ticket(layout, sale, items[k].0),
                items[k].0.quantity as int,
            );
        }
        lemma_cuts_flat_map(items, each, units);
        lemma_units_sold(items, units);
    }
}

/// The sum of a constant over a sequence is the constant times the length.
proof fn lemma_total_of_constant<A>(items: Seq<A>, count: spec_fn(A) -> int, value: int)
    requires
        value == 0 || value == 1,
        forall|i: int| 0 <= i < items.len() ==> count(#[trigger] items[i]) == value,
    ensures
        total_of(items, count) == if value == 1 {
            items.len() as int
        } else {
            0
        },
    decreases items.len(),
{
    if items.len() > 0 {
        let front = items.drop_last();
        assert forall|i: int| 0 <= i < front.len() implies count(#[trigger] front[i]) == value by {
            assert(front[i] == items[i]);
        }
        lemma_total_of_constant(front, count, value);
        assert(count(items[items.len() - 1]) == value);
    }
}

/// The units sold are the sum of the units of the entries.
proof fn lemma_units_sold(
    items: Seq<(CartItemView, ProductView)>,
    units: spec_fn((CartItemView, ProductView)) -> int,
)
    requires
        forall|entry: (CartItemView, ProductView)| #[trigger]
            units(entry) == if entry.0.quantity > 0 {
                entry.0.quantity as int
            } else {
                0int
            },
    ensures
        total_of(items, units) == units_sold(items),
    decreases items.len(),
{
    if items.len() > 0 {
        lemma_units_sold(items.drop_last(), units);
    }
}

/// Composing is repeatable: two compositions of the same sale, items and
/// layout are the same sequence of operations.
pub proof fn lemma_compose_is_repeatable(
    sale: &Sale,
    items: &Vec<(CartItem, Product)>,
    layout: &PrintingLayout,
    first: Vec<PrintOp>,
    second: Vec<PrintOp>,
)
    requires
        call_ensures(compose, (sale, items, layout), first),
        call_ensures(compose, (sale, items, layout), second),
    ensures
        first.deep_view() == second.deep_view(),
{
}

} // verus!
