use writer::menu::{delegate_class, menu_bar, DelegateAction, MenuEntry, Target};
use writer::runtime::{msg_addr, nsstring_to_string, MessageSend};
use writer::window::window_settings;

fn items() -> Vec<(&'static str, &'static str, &'static str, Target)> {
    let mut out = Vec::new();
    for m in menu_bar() {
        for e in m.entries {
            if let MenuEntry::Item { title, action, key, target } = e {
                out.push((title, action, key, target));
            }
        }
    }
    out
}

fn key_of(title: &str) -> &'static str {
    items().into_iter().find(|i| i.0 == title).unwrap().2
}

#[test]
fn readme_shortcuts() {
    assert_eq!(key_of("New"), "n");
    assert_eq!(key_of("Open..."), "o");
    assert_eq!(key_of("Save"), "s");
    assert_eq!(key_of("Save As..."), "S");
    assert_eq!(key_of("Undo"), "z");
    assert_eq!(key_of("Redo"), "Z");
    assert_eq!(key_of("Quit"), "q");
}

#[test]
fn menu_titles_and_separator() {
    let menus = menu_bar();
    assert_eq!(menus.len(), 3);
    assert_eq!(menus[0].title, None);
    assert_eq!(menus[1].title, Some("File"));
    assert_eq!(menus[2].title, Some("Edit"));
    assert_eq!(menus[2].entries[2], MenuEntry::Separator);
    assert_eq!(menus[2].entries.len(), 7);
}

#[test]
fn key_equivalents_are_distinct() {
    let keys: Vec<&str> = items().iter().map(|i| i.2).collect();
    for a in 0..keys.len() {
        for b in (a + 1)..keys.len() {
            assert_ne!(keys[a], keys[b]);
        }
    }
}

#[test]
fn delegate_items_are_handled() {
    let class = delegate_class();
    for (_, action, _, target) in items() {
        if target == Target::Delegate {
            assert!(class.methods.iter().any(|m| m.selector == action));
        }
    }
}

#[test]
fn delegate_class_table() {
    let c = delegate_class();
    assert_eq!(c.name, "AppDelegate");
    assert_eq!(c.superclass, "NSObject");
    assert_eq!(c.methods.len(), 5);
    assert_eq!(c.methods[3].selector, "saveDocumentAs:");
    assert_eq!(c.methods[3].action, DelegateAction::SaveDocumentAs);
    assert_eq!(c.methods[0].types, "v@:@");
    assert_eq!(c.methods[4].types, "c@:@");
}

#[test]
fn plain_text_window_settings() {
    let w = window_settings();
    assert_eq!(w.style_mask, 15);
    assert!(!w.rich_text);
    assert!(w.allows_undo);
    assert!(w.vertically_resizable && w.width_tracks_text_view);
}

#[test]
fn message_send_binding() {
    assert!(MessageSend::bind(0).is_none());
    let m = MessageSend::bind(0x1000).unwrap();
    assert_eq!(msg_addr(&m), 0x1000);
}

#[test]
fn nsstring_text_from_bytes() {
    assert_eq!(nsstring_to_string(None), "");
    assert_eq!(nsstring_to_string(Some("héllo".as_bytes())), "héllo");
    assert_eq!(nsstring_to_string(Some(&[b'a', 0xff, b'b'])), "a\u{FFFD}b");
}
