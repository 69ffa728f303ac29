use fulcitt_pos::identity::{format_identifier, fresh_identifier};
use fulcitt_pos::layout::{FontSize, HeaderLayout, Justify, PrintingLayout, SectionLayout};
use fulcitt_pos::models::{CartItem, Product, Sale};
use fulcitt_pos::printing::{compose, footer_line, print_body, print_footer, print_header, with_layout, PrintOp};
use fulcitt_pos::stamp::SaleTime;

fn section(enabled: bool, font_size: FontSize, justify: Justify) -> SectionLayout {
    SectionLayout { enabled, font_size, justify }
}

fn layout(grouped: bool, header: bool, body: bool, footer: bool) -> PrintingLayout {
    PrintingLayout {
        group_tickets_by_category: grouped,
        header: HeaderLayout {
            enabled: header,
            font_size: FontSize::Large,
            justify: Justify::Center,
            content: "Sagra".to_string(),
        },
        body: section(body, FontSize::Normal, Justify::Left),
        footer: section(footer, FontSize::Small, Justify::Right),
    }
}

fn sale() -> Sale {
    Sale {
        id: 0x0123_4567_89ab_cdef_0123_4567_89ab_cdef,
        sale_time: SaleTime::new(2024, 3, 5, 7, 8, 9).unwrap(),
        total_amount: 1250,
        payment_method: None,
    }
}

fn entry(name: &str, category: &str, quantity: i64) -> (CartItem, Product) {
    (
        CartItem { product_id: 7, name: name.to_string(), price: 250, quantity },
        Product {
            id: 7,
            name: format!("{} (catalog)", name),
            category: category.to_string(),
            price: 300,
            is_deleted: false,
        },
    )
}

fn block(font_size: FontSize, justify: Justify, text: &str) -> Vec<PrintOp> {
    vec![
        PrintOp::SetFont(font_size),
        PrintOp::SetJustify(justify),
        PrintOp::Write(text.to_string()),
        PrintOp::SetFont(FontSize::Small),
        PrintOp::Feed,
    ]
}

const FOOTER: &str = "#01234567-89ab-cdef-0123-456789abcdef - 05-03-2024 07:08:09";

fn tickets(ops: &[PrintOp]) -> Vec<Vec<PrintOp>> {
    let mut all = Vec::new();
    let mut current = Vec::new();
    for op in ops {
        current.push(op.clone());
        if *op == PrintOp::Cut {
            all.push(current);
            current = Vec::new();
        }
    }
    assert!(current.is_empty(), "operations after the last cut");
    all
}

fn writes(ops: &[PrintOp]) -> Vec<String> {
    let mut texts = Vec::new();
    for op in ops {
        if let PrintOp::Write(text) = op {
            texts.push(text.clone());
        }
    }
    texts
}

#[test]
fn split_mode_prints_one_ticket_per_unit() {
    let ops = compose(&sale(), &vec![entry("Birra", "Drinks", 3)], &layout(false, false, true, false));
    let mut expected = Vec::new();
    for _ in 0..3 {
        expected.extend(block(FontSize::Normal, Justify::Left, "Birra"));
        expected.push(PrintOp::Cut);
    }
    assert_eq!(ops, expected);
    let all = tickets(&ops);
    assert_eq!(all.len(), 3);
    for ticket in &all {
        assert_eq!(writes(ticket), vec!["Birra".to_string()]);
        assert_eq!(ticket.last(), Some(&PrintOp::Cut));
        assert_eq!(ticket.iter().filter(|op| **op == PrintOp::Cut).count(), 1);
    }
}

#[test]
fn split_mode_full_ticket_has_header_body_footer_cut() {
    let ops = compose(&sale(), &vec![entry("Birra", "Drinks", 1)], &layout(false, true, true, true));
    let mut expected = block(FontSize::Large, Justify::Center, "Sagra");
    expected.extend(block(FontSize::Normal, Justify::Left, "Birra"));
    expected.extend(block(FontSize::Small, Justify::Right, FOOTER));
    expected.push(PrintOp::Cut);
    assert_eq!(ops, expected);
}

#[test]
fn split_mode_follows_cart_order() {
    let items = vec![entry("Birra", "Drinks", 2), entry("Panino", "Food", 1)];
    let ops = compose(&sale(), &items, &layout(false, false, true, false));
    assert_eq!(
        writes(&ops),
        vec!["Birra".to_string(), "Birra".to_string(), "Panino".to_string()]
    );
    assert_eq!(tickets(&ops).len(), 3);
}

#[test]
fn split_mode_with_every_section_disabled_only_cuts() {
    let ops = compose(&sale(), &vec![entry("Birra", "Drinks", 2)], &layout(false, false, false, false));
    assert_eq!(ops, vec![PrintOp::Cut, PrintOp::Cut]);
}

#[test]
fn quantity_zero_or_negative_prints_nothing() {
    let items = vec![entry("Birra", "Drinks", 0), entry("Panino", "Food", -2)];
    assert_eq!(compose(&sale(), &items, &layout(false, true, true, true)), vec![]);
}

#[test]
fn empty_sale_prints_nothing_in_both_modes() {
    assert_eq!(compose(&sale(), &vec![], &layout(false, true, true, true)), vec![]);
    assert_eq!(compose(&sale(), &vec![], &layout(true, true, true, true)), vec![]);
}

#[test]
fn grouped_mode_prints_one_ticket_per_category() {
    let items = vec![entry("Birra", "Drinks", 1), entry("Panino", "Food", 2)];
    let ops = compose(&sale(), &items, &layout(true, true, true, true));
    let all = tickets(&ops);
    assert_eq!(all.len(), 2);

    let mut drinks = block(FontSize::Large, Justify::Center, "Sagra");
    drinks.extend(block(FontSize::Normal, Justify::Left, "Birra"));
    drinks.extend(block(FontSize::Small, Justify::Right, FOOTER));
    drinks.push(PrintOp::Cut);
    assert_eq!(all[0], drinks);

    let mut food = block(FontSize::Large, Justify::Center, "Sagra");
    food.extend(block(FontSize::Normal, Justify::Left, "Panino"));
    food.extend(block(FontSize::Normal, Justify::Left, "Panino"));
    food.extend(block(FontSize::Small, Justify::Right, FOOTER));
    food.push(PrintOp::Cut);
    assert_eq!(all[1], food);
}

#[test]
fn grouped_mode_batches_every_unit_of_a_category() {
    let items = vec![
        entry("Birra", "Drinks", 1),
        entry("Panino", "Food", 2),
        entry("Acqua", "Drinks", 1),
    ];
    let ops = compose(&sale(), &items, &layout(true, true, true, true));
    let all = tickets(&ops);
    assert_eq!(all.len(), 2);
    assert_eq!(
        writes(&all[0]),
        vec!["Sagra".to_string(), "Birra".to_string(), "Acqua".to_string(), FOOTER.to_string()]
    );
    assert_eq!(
        writes(&all[1]),
        vec!["Sagra".to_string(), "Panino".to_string(), "Panino".to_string(), FOOTER.to_string()]
    );
    for ticket in &all {
        assert_eq!(ticket.iter().filter(|op| **op == PrintOp::Cut).count(), 1);
        assert_eq!(ticket.last(), Some(&PrintOp::Cut));
    }
}

#[test]
fn grouped_mode_without_header_and_footer() {
    let items = vec![entry("Birra", "Drinks", 2), entry("Acqua", "Drinks", 1)];
    let ops = compose(&sale(), &items, &layout(true, false, true, false));
    let mut expected = block(FontSize::Normal, Justify::Left, "Birra");
    expected.extend(block(FontSize::Normal, Justify::Left, "Birra"));
    expected.extend(block(FontSize::Normal, Justify::Left, "Acqua"));
    expected.push(PrintOp::Cut);
    assert_eq!(ops, expected);
}

#[test]
fn grouped_mode_groups_by_catalog_category_not_by_name() {
    let items = vec![entry("Birra", "Bar", 1), entry("Birra", "Kitchen", 1)];
    let ops = compose(&sale(), &items, &layout(true, false, true, false));
    assert_eq!(tickets(&ops).len(), 2);
}

#[test]
fn every_write_is_wrapped_in_its_style() {
    let items = vec![
        entry("Birra", "Drinks", 2),
        entry("Panino", "Food", 1),
        entry("Acqua", "Drinks", 3),
    ];
    for grouped in [false, true] {
        let ops = compose(&sale(), &items, &layout(grouped, true, true, true));
        for (at, op) in ops.iter().enumerate() {
            if let PrintOp::Write(_) = op {
                assert!(matches!(ops[at - 2], PrintOp::SetFont(_)));
                assert!(matches!(ops[at - 1], PrintOp::SetJustify(_)));
                assert_eq!(ops[at + 1], PrintOp::SetFont(FontSize::Small));
                assert_eq!(ops[at + 2], PrintOp::Feed);
            }
        }
    }
}

#[test]
fn composing_twice_gives_the_same_operations() {
    let items = vec![entry("Birra", "Drinks", 2), entry("Panino", "Food", 1)];
    for grouped in [false, true] {
        let chosen = layout(grouped, true, true, true);
        assert_eq!(compose(&sale(), &items, &chosen), compose(&sale(), &items, &chosen));
    }
}

#[test]
fn footer_line_holds_identifier_and_time() {
    assert_eq!(footer_line(&sale()), FOOTER);
}

#[test]
fn identifier_is_written_hyphenated_in_lowercase() {
    assert_eq!(
        format_identifier(0xa1a2_a3a4_b1b2_c1c2_d1d2_d3d4_d5d6_d7d8),
        "a1a2a3a4-b1b2-c1c2-d1d2-d3d4d5d6d7d8"
    );
    assert_eq!(format_identifier(0), "00000000-0000-0000-0000-000000000000");
    assert_eq!(format_identifier(u128::MAX), "ffffffff-ffff-ffff-ffff-ffffffffffff");
    assert_eq!(format_identifier(0x1f), "00000000-0000-0000-0000-00000000001f");
}

#[test]
fn sale_time_is_written_day_first_with_zero_padding() {
    assert_eq!(SaleTime::new(2024, 3, 5, 7, 8, 9).unwrap().format(), "05-03-2024 07:08:09");
    assert_eq!(SaleTime::new(1999, 12, 31, 23, 59, 59).unwrap().format(), "31-12-1999 23:59:59");
    assert_eq!(SaleTime::new(0, 1, 1, 0, 0, 0).unwrap().format(), "01-01-0000 00:00:00");
    assert_eq!(SaleTime::new(987, 10, 20, 10, 20, 30).unwrap().format(), "20-10-0987 10:20:30");
    assert_eq!(SaleTime::new(9999, 2, 28, 1, 2, 3).unwrap().format(), "28-02-9999 01:02:03");
}

#[test]
fn sale_time_rejects_what_is_no_moment() {
    assert!(SaleTime::new(2024, 2, 29, 0, 0, 0).is_some());
    assert!(SaleTime::new(2023, 2, 29, 0, 0, 0).is_none());
    assert!(SaleTime::new(1900, 2, 29, 0, 0, 0).is_none());
    assert!(SaleTime::new(2000, 2, 29, 0, 0, 0).is_some());
    assert!(SaleTime::new(2024, 4, 31, 0, 0, 0).is_none());
    assert!(SaleTime::new(2024, 13, 1, 0, 0, 0).is_none());
    assert!(SaleTime::new(2024, 0, 1, 0, 0, 0).is_none());
    assert!(SaleTime::new(2024, 1, 0, 0, 0, 0).is_none());
    assert!(SaleTime::new(2024, 1, 1, 24, 0, 0).is_none());
    assert!(SaleTime::new(2024, 1, 1, 0, 60, 0).is_none());
    assert!(SaleTime::new(2024, 1, 1, 0, 0, 60).is_none());
    assert!(SaleTime::new(-1, 1, 1, 0, 0, 0).is_none());
    assert!(SaleTime::new(10000, 1, 1, 0, 0, 0).is_none());
}

#[test]
fn sale_time_keeps_its_fields() {
    let time = SaleTime::new(2024, 3, 5, 7, 8, 9).unwrap();
    assert_eq!(
        (time.year(), time.month(), time.day(), time.hour(), time.minute(), time.second()),
        (2024, 3, 5, 7, 8, 9)
    );
}

#[test]
fn the_clock_gives_a_time_that_can_be_written() {
    let now = SaleTime::now().expect("the clock of this machine shows a year after 9999");
    assert_eq!(now.format().len(), 19);
}

#[test]
fn sections_are_styled_and_followed_by_a_feed() {
    let mut ops = vec![PrintOp::Feed];
    let header = HeaderLayout {
        enabled: true,
        font_size: FontSize::Large,
        justify: Justify::Right,
        content: "Sagra".to_string(),
    };
    print_header(&mut ops, &header);
    let item = entry("Birra", "Drinks", 1).0;
    print_body(&mut ops, &section(true, FontSize::Small, Justify::Left), &item);
    print_footer(&mut ops, &section(true, FontSize::Normal, Justify::Center), &sale());
    let mut expected = vec![PrintOp::Feed];
    expected.extend(block(FontSize::Large, Justify::Right, "Sagra"));
    expected.extend(block(FontSize::Small, Justify::Left, "Birra"));
    expected.extend(block(FontSize::Normal, Justify::Center, FOOTER));
    assert_eq!(ops, expected);
}

#[test]
fn disabled_sections_print_nothing() {
    let mut ops = Vec::new();
    let header = HeaderLayout {
        enabled: false,
        font_size: FontSize::Large,
        justify: Justify::Right,
        content: "Sagra".to_string(),
    };
    print_header(&mut ops, &header);
    let item = entry("Birra", "Drinks", 1).0;
    print_body(&mut ops, &section(false, FontSize::Small, Justify::Left), &item);
    print_footer(&mut ops, &section(false, FontSize::Normal, Justify::Center), &sale());
    assert_eq!(ops, vec![]);
}

#[test]
fn with_layout_sets_the_size_back() {
    let mut ops = Vec::new();
    with_layout(&mut ops, &section(true, FontSize::Large, Justify::Center), "x".to_string());
    assert_eq!(
        ops,
        vec![
            PrintOp::SetFont(FontSize::Large),
            PrintOp::SetJustify(Justify::Center),
            PrintOp::Write("x".to_string()),
            PrintOp::SetFont(FontSize::Small),
        ]
    );
}

#[test]
fn font_sizes_map_to_magnification_factors() {
    assert_eq!(FontSize::Small.magnification(), (1, 1));
    assert_eq!(FontSize::Normal.magnification(), (2, 2));
    assert_eq!(FontSize::Large.magnification(), (3, 3));
}

#[test]
fn fresh_identifiers_are_random_uuids() {
    let mut seen = Vec::new();
    for _ in 0..64 {
        let id = fresh_identifier();
        assert_eq!((id >> 76) & 0xf, 4);
        assert_eq!((id >> 62) & 0x3, 2);
        let text = format_identifier(id);
        assert_eq!(text.as_bytes()[14], b'4');
        assert!(matches!(text.as_bytes()[19], b'8' | b'9' | b'a' | b'b'));
        assert!(!seen.contains(&id));
        seen.push(id);
    }
}
