use conductor::args::OutputFormat;
use conductor::cosmic::{AppData, Event, OutputEvent};
use conductor::output::print_displays;
use conductor::print::{human, json, ListOptions, ListPrinter, PrintError, Printer};

#[test]
fn human_struct_and_lists() {
    let mut out = String::new();
    let mut top = human();
    let mut list = top.sub_list_with(&mut out, "Outputs", ListOptions::default());
    {
        let mut item = list.sub_struct(&mut out).unwrap();
        item.field(&mut out, "Name", "DP-1");
        item.optional(&mut out, "Description", None);
        item.optional(&mut out, "Make", Some("Dell"));
        item.inline_list(&mut out, "Displays", &vec!["DP-1".to_string(), "DP-2".to_string()]);
        item.save_drop(&mut out);
    }
    list.save_drop(&mut out);
    top.save_drop(&mut out);
    assert_eq!(out, "Outputs:\n  1:\n  Name: DP-1\n  Make: Dell\n  Displays: DP-1, DP-2\n\n\n");
}

#[test]
fn human_numbered_items_count_past_nine() {
    let mut out = String::new();
    let mut top = human();
    let mut list = top.sub_list_with(&mut out, "L", ListOptions { inline: false });
    for _ in 0..10 {
        list.item(&mut out, "x");
    }
    assert!(out.ends_with("  9: x\n  10: x\n"));
}

#[test]
fn human_inline_list_refuses_nesting() {
    let mut out = String::new();
    let mut top = human();
    let mut list = top.sub_list_with(&mut out, "State", ListOptions { inline: true });
    assert_eq!(list.sub_struct(&mut out).err().map(|_| ()), Some(()));
    assert!(matches!(list.sub_struct(&mut out), Err(PrintError::InlineStruct)));
    assert!(matches!(list.sub_list_with(&mut out, ListOptions::default()), Err(PrintError::InlineList)));
    assert_eq!(out, "State: ");
}

#[test]
fn human_nested_struct_is_indented() {
    let mut out = String::new();
    let mut top = human();
    let mut geo = top.sub_struct(&mut out, "Geometry");
    geo.field(&mut out, "x", "4");
    geo.save_drop(&mut out);
    assert_eq!(out, "Geometry\n  x: 4\n\n");
}

#[test]
fn json_object_with_list() {
    let mut out = String::new();
    let mut top = json(&mut out);
    let mut list = top.sub_list_with(&mut out, "Outputs", ListOptions::default());
    {
        let mut item = list.sub_struct(&mut out).unwrap();
        item.field(&mut out, "Name", "DP-1");
        item.field(&mut out, "x", "0");
        item.inline_list(&mut out, "Displays", &vec!["a".to_string(), "b".to_string()]);
        item.save_drop(&mut out);
        item.save_drop(&mut out);
    }
    list.item(&mut out, "last");
    list.save_drop(&mut out);
    top.save_drop(&mut out);
    assert_eq!(out, "{\"Outputs\":[{\"Name\":\"DP-1\",\"x\":\"0\",\"Displays\":[\"a\",\"b\"]},\"last\"]}");
    assert!(matches!(top, Printer::Json(_)));
    assert!(matches!(list, ListPrinter::Json(_)));
}

#[test]
fn output_format_names() {
    assert_eq!(OutputFormat::Human.name(), "human");
    assert_eq!(OutputFormat::Json.name(), "json");
    assert_eq!(OutputFormat::JsonPretty.name(), "json-pretty");
    assert_eq!(OutputFormat::default(), OutputFormat::Human);
}

#[test]
fn displays_line_lists_known_outputs() {
    let mut s = AppData::new(true, true);
    for (id, name) in [(1u64, "DP-1"), (2, "DP-2")] {
        s.apply(Event::Output(OutputEvent::New { id }));
        s.apply(Event::Output(OutputEvent::Name { id, name: name.to_string() }));
    }
    let mut out = String::new();
    let mut p = human();
    print_displays(&s, &mut p, &mut out, &vec![2, 5, 1]);
    assert_eq!(out, "Displays: DP-2, DP-1\n");
    let mut out = String::new();
    let mut p = json(&mut out);
    print_displays(&s, &mut p, &mut out, &vec![1]);
    assert_eq!(out, "{\"Displays\":[\"DP-1\"]");
}
