use vstd::prelude::*;

verus! {

/// Where a menu item sends its action.
#[derive(Debug, Clone, Copy, PartialEq, Eq, Structural)]
pub enum Target {
    /// The application delegate, which handles the file commands.
    Delegate,
    /// No explicit target: the action goes up the responder chain (the text view handles
    /// undo, redo and the clipboard; the application handles terminate).
    ResponderChain,
}

/// One entry of a menu.
#[derive(Debug, Clone, Copy, PartialEq, Eq)]
pub enum MenuEntry {
    /// An item with its title, action selector, key equivalent and target. A key
    /// equivalent in upper case is pressed with Shift.
    Item { title: &'static str, action: &'static str, key: &'static str, target: Target },
    /// A separator line.
    Separator,
}

/// A menu of the menu bar; the application menu has no title of its own.
#[derive(Debug, PartialEq, Eq)]
pub struct Menu {
    pub title: Option<&'static str>,
    pub entries: Vec<MenuEntry>,
}

/// A menu entry with its strings taken as sequences of characters.
pub enum EntryView {
    Item { title: Seq<char>, action: Seq<char>, key: Seq<char>, target: Target },
    Separator,
}

/// A menu with its strings taken as sequences of characters.
#[verifier::ext_equal]
pub struct MenuView {
    pub title: Option<Seq<char>>,
    pub entries: Seq<EntryView>,
}

impl View for MenuEntry {
    type V = EntryView;

    open spec fn view(&self) -> EntryView {
        match self {
            MenuEntry::Item { title, action, key, target } => EntryView::Item {
                title: title@,
                action: action@,
                key: key@,
                target: *target,
            },
            MenuEntry::Separator => EntryView::Separator,
        }
    }
}

impl View for Menu {
    type V = MenuView;

    open spec fn view(&self) -> MenuView {
        MenuView {
            title: match self.title {
                Some(t) => Some(t@),
                None => None,
            },
            entries: self.entries@.map_values(|e: MenuEntry| e@),
        }
    }
}

/// The item titled `title`, sending `action` to `target` on the key equivalent `key`.
pub open spec fn item(title: &str, action: &str, key: &str, target: Target) -> EntryView {
    EntryView::Item { title: title@, action: action@, key: key@, target }
}

/// The application menu: Quit.
pub open spec fn app_menu_spec() -> MenuView {
    MenuView {
        title: None,
        entries: seq![item("Quit", "terminate:", "q", Target::ResponderChain)],
    }
}

/// The File menu: New, Open..., Save, Save As..., all handled by the delegate.
pub open spec fn file_menu_spec() -> MenuView {
    MenuView {
        title: Some("File"@),
        entries: seq![
            item("New", "newDocument:", "n", Target::Delegate),
            item("Open...", "openDocument:", "o", Target::Delegate),
            item("Save", "saveDocument:", "s", Target::Delegate),
            item("Save As...", "saveDocumentAs:", "S", Target::Delegate),
        ],
    }
}

/// The Edit menu: Undo, Redo, a separator, Cut, Copy, Paste, Select All, all sent up the
/// responder chain.
pub open spec fn edit_menu_spec() -> MenuView {
    MenuView {
        title: Some("Edit"@),
        entries: seq![
            item("Undo", "undo:", "z", Target::ResponderChain),
            item("Redo", "redo:", "Z", Target::ResponderChain),
            EntryView::Separator,
            item("Cut", "cut:", "x", Target::ResponderChain),
            item("Copy", "copy:", "c", Target::ResponderChain),
            item("Paste", "paste:", "v", Target::ResponderChain),
            item("Select All", "selectAll:", "a", Target::ResponderChain),
        ],
    }
}

/// The menu bar, left to right.
pub open spec fn menu_bar_spec() -> Seq<MenuView> {
    seq![app_menu_spec(), file_menu_spec(), edit_menu_spec()]
}

/// The menus of the menu bar, left to right, as `menu_bar_spec` lays them out.
pub fn menu_bar() -> (menus: Vec<Menu>)
    ensures
        menus@.map_values(|m: Menu| m@) == menu_bar_spec(),
{
    let app = Menu {
        title: None,
        entries: vec![
            MenuEntry::Item {
                title: "Quit",
                action: "terminate:",
                key: "q",
                target: Target::ResponderChain,
            },
        ],
    };
    assert(app@.entries =~= app_menu_spec().entries);
    assert(app@ =~= app_menu_spec());
    let file = Menu {
        title: Some("File"),
        entries: vec![
            MenuEntry::Item {
                title: "New",
                action: "newDocument:",
                key: "n",
                target: Target::Delegate,
            },
            MenuEntry::Item {
                title: "Open...",
                action: "openDocument:",
                key: "o",
                target: Target::Delegate,
            },
            MenuEntry::Item {
                title: "Save",
                action: "saveDocument:",
                key: "s",
                target: Target::Delegate,
            },
            MenuEntry::Item {
                title: "Save As...",
                action: "saveDocumentAs:",
                key: "S",
                target: Target::Delegate,
            },
        ],
    };
    assert(file@.entries =~= file_menu_spec().entries);
    assert(file@ =~= file_menu_spec());
    let edit = Menu {
        title: Some("Edit"),
        entries: vec![
            MenuEntry::Item {
                title: "Undo",
                action: "undo:",
                key: "z",
                target: Target::ResponderChain,
            },
            MenuEntry::Item {
                title: "Redo",
                action: "redo:",
                key: "Z",
                target: Target::ResponderChain,
            },
            MenuEntry::Separator,
            MenuEntry::Item {
                title: "Cut",
                action: "cut:",
                key: "x",
                target: Target::ResponderChain,
            },
            MenuEntry::Item {
                title: "Copy",
                action: "copy:",
                key: "c",
                target: Target::ResponderChain,
            },
            MenuEntry::Item {
                title: "Paste",
                action: "paste:",
                key: "v",
                target: Target::ResponderChain,
            },
            MenuEntry::Item {
                title: "Select All",
                action: "selectAll:",
                key: "a",
                target: Target::ResponderChain,
            },
        ],
    };
    assert(edit@.entries =~= edit_menu_spec().entries);
    assert(edit@ =~= edit_menu_spec());
    let menus = vec![app, file, edit];
    assert(menus@.map_values(|m: Menu| m@) =~= menu_bar_spec());
    menus
}


/// What the editor does when AppKit calls a delegate method.
#[derive(Debug, Clone, Copy, PartialEq, Eq, Structural)]
pub enum DelegateAction {
    NewDocument,
    OpenDocument,
    SaveDocument,
    SaveDocumentAs,
    ShouldTerminateAfterLastWindowClosed,
}

/// A method of the delegate class: its selector, its Objective-C type encoding, and the
/// action it runs.
#[derive(Debug, Clone, Copy, PartialEq, Eq)]
pub struct DelegateMethod {
    pub selector: &'static str,
    pub types: &'static str,
    pub action: DelegateAction,
}

/// The delegate class registered with the Objective-C runtime at start-up.
#[derive(Debug, PartialEq, Eq)]
pub struct DelegateClass {
    pub name: &'static str,
    pub superclass: &'static str,
    pub methods: Vec<DelegateMethod>,
}

/// A delegate method with its strings taken as sequences of characters.
pub struct MethodView {
    pub selector: Seq<char>,
    pub types: Seq<char>,
    pub action: DelegateAction,
}

/// The delegate class with its strings taken as sequences of characters.
#[verifier::ext_equal]
pub struct ClassView {
    pub name: Seq<char>,
    pub superclass: Seq<char>,
    pub methods: Seq<MethodView>,
}

impl View for DelegateMethod {
    type V = MethodView;

    open spec fn view(&self) -> MethodView {
        MethodView { selector: self.selector@, types: self.types@, action: self.action }
    }
}

impl View for DelegateClass {
    type V = ClassView;

    open spec fn view(&self) -> ClassView {
        ClassView {
            name: self.name@,
            superclass: self.superclass@,
            methods: self.methods@.map_values(|m: DelegateMethod| m@),
        }
    }
}

/// The method `selector` with type encoding `types`, running `action`.
pub open spec fn method(selector: &str, types: &str, action: DelegateAction) -> MethodView {
    MethodView { selector: selector@, types: types@, action }
}

/// "AppDelegate", a subclass of NSObject: the four file commands take the sender and
/// return nothing ("v@:@"); the quit-on-last-window query returns a BOOL ("c@:@").
pub open spec fn delegate_class_spec() -> ClassView {
    ClassView {
        name: "AppDelegate"@,
        superclass: "NSObject"@,
        methods: seq![
            method("newDocument:", "v@:@", DelegateAction::NewDocument),
            method("openDocument:", "v@:@", DelegateAction::OpenDocument),
            method("saveDocument:", "v@:@", DelegateAction::SaveDocument),
            method("saveDocumentAs:", "v@:@", DelegateAction::SaveDocumentAs),
            method(
                "applicationShouldTerminateAfterLastWindowClosed:",
                "c@:@",
                DelegateAction::ShouldTerminateAfterLastWindowClosed,
            ),
        ],
    }
}

/// The delegate class to register, as `delegate_class_spec` describes it.
pub fn delegate_class() -> (c: DelegateClass)
    ensures
        c@ == delegate_class_spec(),
{
    let c = DelegateClass {
        name: "AppDelegate",
        superclass: "NSObject",
        methods: vec![
            DelegateMethod {
                selector: "newDocument:",
                types: "v@:@",
                action: DelegateAction::NewDocument,
            },
            DelegateMethod {
                selector: "openDocument:",
                types: "v@:@",
                action: DelegateAction::OpenDocument,
            },
            DelegateMethod {
                selector: "saveDocument:",
                types: "v@:@",
                action: DelegateAction::SaveDocument,
            },
            DelegateMethod {
                selector: "saveDocumentAs:",
                types: "v@:@",
                action: DelegateAction::SaveDocumentAs,
            },
            DelegateMethod {
                selector: "applicationShouldTerminateAfterLastWindowClosed:",
                types: "c@:@",
                action: DelegateAction::ShouldTerminateAfterLastWindowClosed,
            },
        ],
    };
    assert(c@.methods =~= delegate_class_spec().methods);
    assert(c@ =~= delegate_class_spec());
    c
}

/// The entries of the menus, one menu after another.
pub open spec fn all_entries(menus: Seq<MenuView>) -> Seq<EntryView>
    decreases menus.len(),
{
    if menus.len() == 0 {
        seq![]
    } else {
        all_entries(menus.drop_last()) + menus.last().entries
    }
}

/// Every menu item that targets the delegate sends a selector the delegate class
/// registers, so no File command goes unanswered.
pub proof fn law_delegate_items_are_handled()
    ensures
        forall|k: int|
            #![trigger all_entries(menu_bar_spec())[k]]
            0 <= k < all_entries(menu_bar_spec()).len() && all_entries(menu_bar_spec())[k] is Item
                && all_entries(menu_bar_spec())[k]->target == Target::Delegate ==> exists|m: int|
                0 <= m < delegate_class_spec().methods.len()
                    && #[trigger] delegate_class_spec().methods[m].selector == all_entries(
                    menu_bar_spec(),
                )[k]->action,
{
    let es = all_entries(menu_bar_spec());
    let ms = delegate_class_spec().methods;
    reveal_with_fuel(all_entries, 4);
    assert(es =~= app_menu_spec().entries + file_menu_spec().entries + edit_menu_spec().entries);
    assert(ms[0].selector == "newDocument:"@);
    assert(ms[1].selector == "openDocument:"@);
    assert(ms[2].selector == "saveDocument:"@);
    assert(ms[3].selector == "saveDocumentAs:"@);
    assert forall|k: int|
        #![trigger es[k]]
        0 <= k < es.len() && es[k] is Item && es[k]->target == Target::Delegate implies exists|
        m: int,
    |
        0 <= m < ms.len() && #[trigger] ms[m].selector == es[k]->action by {
        assert(es.len() == 12);
        if 1 <= k <= 4 {
            assert(ms[k - 1].selector == es[k]->action);
        }
    }
}

/// No two menu items share a key equivalent.
pub proof fn law_key_equivalents_are_distinct()
    ensures
        forall|a: int, b: int|
            #![trigger all_entries(menu_bar_spec())[a], all_entries(menu_bar_spec())[b]]
            0 <= a < b < all_entries(menu_bar_spec()).len() && all_entries(menu_bar_spec())[a] is Item
                && all_entries(menu_bar_spec())[b] is Item ==> all_entries(menu_bar_spec())[a]->key
                != all_entries(menu_bar_spec())[b]->key,
{
    let es = all_entries(menu_bar_spec());
    reveal_with_fuel(all_entries, 4);
    assert(es =~= app_menu_spec().entries + file_menu_spec().entries + edit_menu_spec().entries);
    reveal_strlit("q");
    reveal_strlit("n");
    reveal_strlit("o");
    reveal_strlit("s");
    reveal_strlit("S");
    reveal_strlit("z");
    reveal_strlit("Z");
    reveal_strlit("x");
    reveal_strlit("c");
    reveal_strlit("v");
    reveal_strlit("a");
    assert forall|a: int, b: int|
        #![trigger es[a], es[b]]
        0 <= a < b < es.len() && es[a] is Item && es[b] is Item implies es[a]->key
        != es[b]->key by {
        assert(es.len() == 12);
        assert(es[a]->key[0] != es[b]->key[0]);
    }
}


proof fn lemma_names_are_distinct()
    ensures
        "Quit"@ != "New"@,
        "Quit"@ != "Open..."@,
        "Quit"@ != "Save"@,
        "Quit"@ != "Save As..."@,
        "Quit"@ != "Undo"@,
        "Quit"@ != "Redo"@,
        "Quit"@ != "Cut"@,
        "Quit"@ != "Copy"@,
        "Quit"@ != "Paste"@,
        "Quit"@ != "Select All"@,
        "New"@ != "Open..."@,
        "New"@ != "Save"@,
        "New"@ != "Save As..."@,
        "New"@ != "Undo"@,
        "New"@ != "Redo"@,
        "New"@ != "Cut"@,
        "New"@ != "Copy"@,
        "New"@ != "Paste"@,
        "New"@ != "Select All"@,
        "Open..."@ != "Save"@,
        "Open..."@ != "Save As..."@,
        "Open..."@ != "Undo"@,
        "Open..."@ != "Redo"@,
        "Open..."@ != "Cut"@,
        "Open..."@ != "Copy"@,
        "Open..."@ != "Paste"@,
        "Open..."@ != "Select All"@,
        "Save"@ != "Save As..."@,
        "Save"@ != "Undo"@,
        "Save"@ != "Redo"@,
        "Save"@ != "Cut"@,
        "Save"@ != "Copy"@,
        "Save"@ != "Paste"@,
        "Save"@ != "Select All"@,
        "Save As..."@ != "Undo"@,
        "Save As..."@ != "Redo"@,
        "Save As..."@ != "Cut"@,
        "Save As..."@ != "Copy"@,
        "Save As..."@ != "Paste"@,
        "Save As..."@ != "Select All"@,
        "Undo"@ != "Redo"@,
        "Undo"@ != "Cut"@,
        "Undo"@ != "Copy"@,
        "Undo"@ != "Paste"@,
        "Undo"@ != "Select All"@,
        "Redo"@ != "Cut"@,
        "Redo"@ != "Copy"@,
        "Redo"@ != "Paste"@,
        "Redo"@ != "Select All"@,
        "Cut"@ != "Copy"@,
        "Cut"@ != "Paste"@,
        "Cut"@ != "Select All"@,
        "Copy"@ != "Paste"@,
        "Copy"@ != "Select All"@,
        "Paste"@ != "Select All"@,
        "newDocument:"@ != "openDocument:"@,
        "newDocument:"@ != "saveDocument:"@,
        "newDocument:"@ != "saveDocumentAs:"@,
        "newDocument:"@ != "applicationShouldTerminateAfterLastWindowClosed:"@,
        "openDocument:"@ != "saveDocument:"@,
        "openDocument:"@ != "saveDocumentAs:"@,
        "openDocument:"@ != "applicationShouldTerminateAfterLastWindowClosed:"@,
        "saveDocument:"@ != "saveDocumentAs:"@,
        "saveDocument:"@ != "applicationShouldTerminateAfterLastWindowClosed:"@,
        "saveDocumentAs:"@ != "applicationShouldTerminateAfterLastWindowClosed:"@,
{
    assert("Quit"@ != "New"@) by {
        reveal_strlit("Quit");
        reveal_strlit("New");
        assert("Quit"@.len() != "New"@.len());
    }
    assert("Quit"@ != "Open..."@) by {
        reveal_strlit("Quit");
        reveal_strlit("Open...");
        assert("Quit"@.len() != "Open..."@.len());
    }
    assert("Quit"@ != "Save"@) by {
        reveal_strlit("Quit");
        reveal_strlit("Save");
        assert("Quit"@[0] != "Save"@[0]);
    }
    assert("Quit"@ != "Save As..."@) by {
        reveal_strlit("Quit");
        reveal_strlit("Save As...");
        assert("Quit"@.len() != "Save As..."@.len());
    }
    assert("Quit"@ != "Undo"@) by {
        reveal_strlit("Quit");
        reveal_strlit("Undo");
        assert("Quit"@[0] != "Undo"@[0]);
    }
    assert("Quit"@ != "Redo"@) by {
        reveal_strlit("Quit");
        reveal_strlit("Redo");
        assert("Quit"@[0] != "Redo"@[0]);
    }
    assert("Quit"@ != "Cut"@) by {
        reveal_strlit("Quit");
        reveal_strlit("Cut");
        assert("Quit"@.len() != "Cut"@.len());
    }
    assert("Quit"@ != "Copy"@) by {
        reveal_strlit("Quit");
        reveal_strlit("Copy");
        assert("Quit"@[0] != "Copy"@[0]);
    }
    assert("Quit"@ != "Paste"@) by {
        reveal_strlit("Quit");
        reveal_strlit("Paste");
        assert("Quit"@.len() != "Paste"@.len());
    }
    assert("Quit"@ != "Select All"@) by {
        reveal_strlit("Quit");
        reveal_strlit("Select All");
        assert("Quit"@.len() != "Select All"@.len());
    }
    assert("New"@ != "Open..."@) by {
        reveal_strlit("New");
        reveal_strlit("Open...");
        assert("New"@.len() != "Open..."@.len());
    }
    assert("New"@ != "Save"@) by {
        reveal_strlit("New");
        reveal_strlit("Save");
        assert("New"@.len() != "Save"@.len());
    }
    assert("New"@ != "Save As..."@) by {
        reveal_strlit("New");
        reveal_strlit("Save As...");
        assert("New"@.len() != "Save As..."@.len());
    }
    assert("New"@ != "Undo"@) by {
        reveal_strlit("New");
        reveal_strlit("Undo");
        assert("New"@.len() != "Undo"@.len());
    }
    assert("New"@ != "Redo"@) by {
        reveal_strlit("New");
        reveal_strlit("Redo");
        assert("New"@.len() != "Redo"@.len());
    }
    assert("New"@ != "Cut"@) by {
        reveal_strlit("New");
        reveal_strlit("Cut");
        assert("New"@[0] != "Cut"@[0]);
    }
    assert("New"@ != "Copy"@) by {
        reveal_strlit("New");
        reveal_strlit("Copy");
        assert("New"@.len() != "Copy"@.len());
    }
    assert("New"@ != "Paste"@) by {
        reveal_strlit("New");
        reveal_strlit("Paste");
        assert("New"@.len() != "Paste"@.len());
    }
    assert("New"@ != "Select All"@) by {
        reveal_strlit("New");
        reveal_strlit("Select All");
        assert("New"@.len() != "Select All"@.len());
    }
    assert("Open..."@ != "Save"@) by {
        reveal_strlit("Open...");
        reveal_strlit("Save");
        assert("Open..."@.len() != "Save"@.len());
    }
    assert("Open..."@ != "Save As..."@) by {
        reveal_strlit("Open...");
        reveal_strlit("Save As...");
        assert("Open..."@.len() != "Save As..."@.len());
    }
    assert("Open..."@ != "Undo"@) by {
        reveal_strlit("Open...");
        reveal_strlit("Undo");
        assert("Open..."@.len() != "Undo"@.len());
    }
    assert("Open..."@ != "Redo"@) by {
        reveal_strlit("Open...");
        reveal_strlit("Redo");
        assert("Open..."@.len() != "Redo"@.len());
    }
    assert("Open..."@ != "Cut"@) by {
        reveal_strlit("Open...");
        reveal_strlit("Cut");
        assert("Open..."@.len() != "Cut"@.len());
    }
    assert("Open..."@ != "Copy"@) by {
        reveal_strlit("Open...");
        reveal_strlit("Copy");
        assert("Open..."@.len() != "Copy"@.len());
    }
    assert("Open..."@ != "Paste"@) by {
        reveal_strlit("Open...");
        reveal_strlit("Paste");
        assert("Open..."@.len() != "Paste"@.len());
    }
    assert("Open..."@ != "Select All"@) by {
        reveal_strlit("Open...");
        reveal_strlit("Select All");
        assert("Open..."@.len() != "Select All"@.len());
    }
    assert("Save"@ != "Save As..."@) by {
        reveal_strlit("Save");
        reveal_strlit("Save As...");
        assert("Save"@.len() != "Save As..."@.len());
    }
    assert("Save"@ != "Undo"@) by {
        reveal_strlit("Save");
        reveal_strlit("Undo");
        assert("Save"@[0] != "Undo"@[0]);
    }
    assert("Save"@ != "Redo"@) by {
        reveal_strlit("Save");
        reveal_strlit("Redo");
        assert("Save"@[0] != "Redo"@[0]);
    }
    assert("Save"@ != "Cut"@) by {
        reveal_strlit("Save");
        reveal_strlit("Cut");
        assert("Save"@.len() != "Cut"@.len());
    }
    assert("Save"@ != "Copy"@) by {
        reveal_strlit("Save");
        reveal_strlit("Copy");
        assert("Save"@[0] != "Copy"@[0]);
    }
    assert("Save"@ != "Paste"@) by {
        reveal_strlit("Save");
        reveal_strlit("Paste");
        assert("Save"@.len() != "Paste"@.len());
    }
    assert("Save"@ != "Select All"@) by {
        reveal_strlit("Save");
        reveal_strlit("Select All");
        assert("Save"@.len() != "Select All"@.len());
    }
    assert("Save As..."@ != "Undo"@) by {
        reveal_strlit("Save As...");
        reveal_strlit("Undo");
        assert("Save As..."@.len() != "Undo"@.len());
    }
    assert("Save As..."@ != "Redo"@) by {
        reveal_strlit("Save As...");
        reveal_strlit("Redo");
        assert("Save As..."@.len() != "Redo"@.len());
    }
    assert("Save As..."@ != "Cut"@) by {
        reveal_strlit("Save As...");
        reveal_strlit("Cut");
        assert("Save As..."@.len() != "Cut"@.len());
    }
    assert("Save As..."@ != "Copy"@) by {
        reveal_strlit("Save As...");
        reveal_strlit("Copy");
        assert("Save As..."@.len() != "Copy"@.len());
    }
    assert("Save As..."@ != "Paste"@) by {
        reveal_strlit("Save As...");
        reveal_strlit("Paste");
        assert("Save As..."@.len() != "Paste"@.len());
    }
    assert("Save As..."@ != "Select All"@) by {
        reveal_strlit("Save As...");
        reveal_strlit("Select All");
        assert("Save As..."@[1] != "Select All"@[1]);
    }
    assert("Undo"@ != "Redo"@) by {
        reveal_strlit("Undo");
        reveal_strlit("Redo");
        assert("Undo"@[0] != "Redo"@[0]);
    }
    assert("Undo"@ != "Cut"@) by {
        reveal_strlit("Undo");
        reveal_strlit("Cut");
        assert("Undo"@.len() != "Cut"@.len());
    }
    assert("Undo"@ != "Copy"@) by {
        reveal_strlit("Undo");
        reveal_strlit("Copy");
        assert("Undo"@[0] != "Copy"@[0]);
    }
    assert("Undo"@ != "Paste"@) by {
        reveal_strlit("Undo");
        reveal_strlit("Paste");
        assert("Undo"@.len() != "Paste"@.len());
    }
    assert("Undo"@ != "Select All"@) by {
        reveal_strlit("Undo");
        reveal_strlit("Select All");
        assert("Undo"@.len() != "Select All"@.len());
    }
    assert("Redo"@ != "Cut"@) by {
        reveal_strlit("Redo");
        reveal_strlit("Cut");
        assert("Redo"@.len() != "Cut"@.len());
    }
    assert("Redo"@ != "Copy"@) by {
        reveal_strlit("Redo");
        reveal_strlit("Copy");
        assert("Redo"@[0] != "Copy"@[0]);
    }
    assert("Redo"@ != "Paste"@) by {
        reveal_strlit("Redo");
        reveal_strlit("Paste");
        assert("Redo"@.len() != "Paste"@.len());
    }
    assert("Redo"@ != "Select All"@) by {
        reveal_strlit("Redo");
        reveal_strlit("Select All");
        assert("Redo"@.len() != "Select All"@.len());
    }
    assert("Cut"@ != "Copy"@) by {
        reveal_strlit("Cut");
        reveal_strlit("Copy");
        assert("Cut"@.len() != "Copy"@.len());
    }
    assert("Cut"@ != "Paste"@) by {
        reveal_strlit("Cut");
        reveal_strlit("Paste");
        assert("Cut"@.len() != "Paste"@.len());
    }
    assert("Cut"@ != "Select All"@) by {
        reveal_strlit("Cut");
        reveal_strlit("Select All");
        assert("Cut"@.len() != "Select All"@.len());
    }
    assert("Copy"@ != "Paste"@) by {
        reveal_strlit("Copy");
        reveal_strlit("Paste");
        assert("Copy"@.len() != "Paste"@.len());
    }
    assert("Copy"@ != "Select All"@) by {
        reveal_strlit("Copy");
        reveal_strlit("Select All");
        assert("Copy"@.len() != "Select All"@.len());
    }
    assert("Paste"@ != "Select All"@) by {
        reveal_strlit("Paste");
        reveal_strlit("Select All");
        assert("Paste"@.len() != "Select All"@.len());
    }
    assert("newDocument:"@ != "openDocument:"@) by {
        reveal_strlit("newDocument:");
        reveal_strlit("openDocument:");
        assert("newDocument:"@.len() != "openDocument:"@.len());
    }
    assert("newDocument:"@ != "saveDocument:"@) by {
        reveal_strlit("newDocument:");
        reveal_strlit("saveDocument:");
        assert("newDocument:"@.len() != "saveDocument:"@.len());
    }
    assert("newDocument:"@ != "saveDocumentAs:"@) by {
        reveal_strlit("newDocument:");
        reveal_strlit("saveDocumentAs:");
        assert("newDocument:"@.len() != "saveDocumentAs:"@.len());
    }
    assert("newDocument:"@ != "applicationShouldTerminateAfterLastWindowClosed:"@) by {
        reveal_strlit("newDocument:");
        reveal_strlit("applicationShouldTerminateAfterLastWindowClosed:");
        assert("newDocument:"@.len() != "applicationShouldTerminateAfterLastWindowClosed:"@.len());
    }
    assert("openDocument:"@ != "saveDocument:"@) by {
        reveal_strlit("openDocument:");
        reveal_strlit("saveDocument:");
        assert("openDocument:"@[0] != "saveDocument:"@[0]);
    }
    assert("openDocument:"@ != "saveDocumentAs:"@) by {
        reveal_strlit("openDocument:");
        reveal_strlit("saveDocumentAs:");
        assert("openDocument:"@.len() != "saveDocumentAs:"@.len());
    }
    assert("openDocument:"@ != "applicationShouldTerminateAfterLastWindowClosed:"@) by {
        reveal_strlit("openDocument:");
        reveal_strlit("applicationShouldTerminateAfterLastWindowClosed:");
        assert("openDocument:"@.len() != "applicationShouldTerminateAfterLastWindowClosed:"@.len());
    }
    assert("saveDocument:"@ != "saveDocumentAs:"@) by {
        reveal_strlit("saveDocument:");
        reveal_strlit("saveDocumentAs:");
        assert("saveDocument:"@.len() != "saveDocumentAs:"@.len());
    }
    assert("saveDocument:"@ != "applicationShouldTerminateAfterLastWindowClosed:"@) by {
        reveal_strlit("saveDocument:");
        reveal_strlit("applicationShouldTerminateAfterLastWindowClosed:");
        assert("saveDocument:"@.len() != "applicationShouldTerminateAfterLastWindowClosed:"@.len());
    }
    assert("saveDocumentAs:"@ != "applicationShouldTerminateAfterLastWindowClosed:"@) by {
        reveal_strlit("saveDocumentAs:");
        reveal_strlit("applicationShouldTerminateAfterLastWindowClosed:");
        assert("saveDocumentAs:"@.len() != "applicationShouldTerminateAfterLastWindowClosed:"@.len());
    }
}

/// What an item is for, by its title: the action it sends, its key equivalent and its
/// target (Quit quits on Cmd+Q, Cut cuts on Cmd+X, Save As saves elsewhere on Cmd+Shift+S,
/// and so on).
pub open spec fn item_does_what_its_title_says(e: EntryView) -> bool {
    e is Item ==> {
            &&& (e->title == "Quit"@ ==> e->action == "terminate:"@ && e->key == "q"@ && e->target == Target::ResponderChain)
            &&& (e->title == "New"@ ==> e->action == "newDocument:"@ && e->key == "n"@ && e->target == Target::Delegate)
            &&& (e->title == "Open..."@ ==> e->action == "openDocument:"@ && e->key == "o"@ && e->target == Target::Delegate)
            &&& (e->title == "Save"@ ==> e->action == "saveDocument:"@ && e->key == "s"@ && e->target == Target::Delegate)
            &&& (e->title == "Save As..."@ ==> e->action == "saveDocumentAs:"@ && e->key == "S"@ && e->target == Target::Delegate)
            &&& (e->title == "Undo"@ ==> e->action == "undo:"@ && e->key == "z"@ && e->target == Target::ResponderChain)
            &&& (e->title == "Redo"@ ==> e->action == "redo:"@ && e->key == "Z"@ && e->target == Target::ResponderChain)
            &&& (e->title == "Cut"@ ==> e->action == "cut:"@ && e->key == "x"@ && e->target == Target::ResponderChain)
            &&& (e->title == "Copy"@ ==> e->action == "copy:"@ && e->key == "c"@ && e->target == Target::ResponderChain)
            &&& (e->title == "Paste"@ ==> e->action == "paste:"@ && e->key == "v"@ && e->target == Target::ResponderChain)
            &&& (e->title == "Select All"@ ==> e->action == "selectAll:"@ && e->key == "a"@ && e->target == Target::ResponderChain)
    }
}

/// Every item of the menu bar sends the action, has the key equivalent and goes to the
/// target that its title names, and no two items send the same action.
pub proof fn law_items_send_their_own_actions()
    ensures
        forall|k: int|
            0 <= k < all_entries(menu_bar_spec()).len() ==> item_does_what_its_title_says(#[trigger] all_entries(menu_bar_spec())[k]),
        forall|a: int, b: int|
            #![trigger all_entries(menu_bar_spec())[a], all_entries(menu_bar_spec())[b]]
            0 <= a < b < all_entries(menu_bar_spec()).len() && all_entries(menu_bar_spec())[a] is Item
                && all_entries(menu_bar_spec())[b] is Item ==> all_entries(menu_bar_spec())[a]->action
                != all_entries(menu_bar_spec())[b]->action,
{
    let es = all_entries(menu_bar_spec());
    lemma_names_are_distinct();
    reveal_with_fuel(all_entries, 4);
    assert(es =~= app_menu_spec().entries + file_menu_spec().entries + edit_menu_spec().entries);
    reveal_strlit("Quit");
    reveal_strlit("terminate:");
    reveal_strlit("New");
    reveal_strlit("newDocument:");
    reveal_strlit("Open...");
    reveal_strlit("openDocument:");
    reveal_strlit("Save");
    reveal_strlit("saveDocument:");
    reveal_strlit("Save As...");
    reveal_strlit("saveDocumentAs:");
    reveal_strlit("Undo");
    reveal_strlit("undo:");
    reveal_strlit("Redo");
    reveal_strlit("redo:");
    reveal_strlit("Cut");
    reveal_strlit("cut:");
    reveal_strlit("Copy");
    reveal_strlit("copy:");
    reveal_strlit("Paste");
    reveal_strlit("paste:");
    reveal_strlit("Select All");
    reveal_strlit("selectAll:");
    assert forall|k: int| 0 <= k < es.len() implies item_does_what_its_title_says(#[trigger] es[k]) by {
        assert(es.len() == 12);
        if k == 0 {
            assert(item_does_what_its_title_says(es[0]));
        } else if k == 1 {
            assert(item_does_what_its_title_says(es[1]));
        } else if k == 2 {
            assert(item_does_what_its_title_says(es[2]));
        } else if k == 3 {
            assert(item_does_what_its_title_says(es[3]));
        } else if k == 4 {
            assert(item_does_what_its_title_says(es[4]));
        } else if k == 5 {
            assert(item_does_what_its_title_says(es[5]));
        } else if k == 6 {
            assert(item_does_what_its_title_says(es[6]));
        } else if k == 7 {
            assert(item_does_what_its_title_says(es[7]));
        } else if k == 8 {
            assert(item_does_what_its_title_says(es[8]));
        } else if k == 9 {
            assert(item_does_what_its_title_says(es[9]));
        } else if k == 10 {
            assert(item_does_what_its_title_says(es[10]));
        } else if k == 11 {
            assert(item_does_what_its_title_says(es[11]));
        }
    }
    assert forall|a: int, b: int|
        #![trigger es[a], es[b]]
        0 <= a < b < es.len() && es[a] is Item && es[b] is Item implies es[a]->action
        != es[b]->action by {
        assert(es.len() == 12);
        assert(es[a]->action.len() != es[b]->action.len() || es[a]->action[0] != es[b]->action[0]
            || es[a]->action[4] != es[b]->action[4]);
    }
}

/// The delegate runs the command its selector names, whatever else it registers: any
/// method registered for "newDocument:" runs New, for "openDocument:" Open, and so on; so
/// each File item, through the selector it sends, runs the command of its title.
pub proof fn law_delegate_runs_the_named_command()
    ensures
        forall|m: int|
            #![trigger delegate_class_spec().methods[m]]
            0 <= m < delegate_class_spec().methods.len() ==> {
                let ms = delegate_class_spec().methods;
                &&& (ms[m].selector == "newDocument:"@ ==> ms[m].action == DelegateAction::NewDocument)
                &&& (ms[m].selector == "openDocument:"@ ==> ms[m].action == DelegateAction::OpenDocument)
                &&& (ms[m].selector == "saveDocument:"@ ==> ms[m].action == DelegateAction::SaveDocument)
                &&& (ms[m].selector == "saveDocumentAs:"@ ==> ms[m].action == DelegateAction::SaveDocumentAs)
                &&& (ms[m].selector == "applicationShouldTerminateAfterLastWindowClosed:"@
                    ==> ms[m].action == DelegateAction::ShouldTerminateAfterLastWindowClosed)
            },
        forall|k: int, m: int|
            #![trigger all_entries(menu_bar_spec())[k], delegate_class_spec().methods[m]]
            0 <= k < all_entries(menu_bar_spec()).len() && 0 <= m < delegate_class_spec().methods.len()
                && all_entries(menu_bar_spec())[k] is Item && all_entries(menu_bar_spec())[k]->target == Target::Delegate
                && delegate_class_spec().methods[m].selector == all_entries(menu_bar_spec())[k]->action ==> {
                let es = all_entries(menu_bar_spec());
                let ms = delegate_class_spec().methods;
                &&& (es[k]->title == "New"@ ==> ms[m].action == DelegateAction::NewDocument)
                &&& (es[k]->title == "Open..."@ ==> ms[m].action == DelegateAction::OpenDocument)
                &&& (es[k]->title == "Save"@ ==> ms[m].action == DelegateAction::SaveDocument)
                &&& (es[k]->title == "Save As..."@ ==> ms[m].action == DelegateAction::SaveDocumentAs)
            },
        forall|a: int, b: int|
            #![trigger delegate_class_spec().methods[a], delegate_class_spec().methods[b]]
            0 <= a < b < delegate_class_spec().methods.len() ==> delegate_class_spec().methods[a].selector
                != delegate_class_spec().methods[b].selector,
{
    let es = all_entries(menu_bar_spec());
    let ms = delegate_class_spec().methods;
    lemma_names_are_distinct();
    reveal_with_fuel(all_entries, 4);
    assert(es =~= app_menu_spec().entries + file_menu_spec().entries + edit_menu_spec().entries);
    assert(ms.len() == 5);
    assert forall|m: int| #![trigger ms[m]] 0 <= m < ms.len() implies {
        &&& (ms[m].selector == "newDocument:"@ ==> ms[m].action == DelegateAction::NewDocument)
        &&& (ms[m].selector == "openDocument:"@ ==> ms[m].action == DelegateAction::OpenDocument)
        &&& (ms[m].selector == "saveDocument:"@ ==> ms[m].action == DelegateAction::SaveDocument)
        &&& (ms[m].selector == "saveDocumentAs:"@ ==> ms[m].action == DelegateAction::SaveDocumentAs)
        &&& (ms[m].selector == "applicationShouldTerminateAfterLastWindowClosed:"@
            ==> ms[m].action == DelegateAction::ShouldTerminateAfterLastWindowClosed)
    } by {
        assert(m == 0 || m == 1 || m == 2 || m == 3 || m == 4);
    }
    assert forall|k: int, m: int|
        #![trigger es[k], ms[m]]
        0 <= k < es.len() && 0 <= m < ms.len() && es[k] is Item && es[k]->target
            == Target::Delegate && ms[m].selector == es[k]->action implies {
        &&& (es[k]->title == "New"@ ==> ms[m].action == DelegateAction::NewDocument)
        &&& (es[k]->title == "Open..."@ ==> ms[m].action == DelegateAction::OpenDocument)
        &&& (es[k]->title == "Save"@ ==> ms[m].action == DelegateAction::SaveDocument)
        &&& (es[k]->title == "Save As..."@ ==> ms[m].action == DelegateAction::SaveDocumentAs)
    } by {
        assert(es.len() == 12);
        assert(1 <= k <= 4) by {
            if k == 0 || k >= 5 {
                assert(es[k]->target == Target::ResponderChain);
            }
        }
        assert(ms[k - 1].selector == es[k]->action);
        assert(m == k - 1);
    }
    assert forall|a: int, b: int|
        #![trigger ms[a], ms[b]]
        0 <= a < b < ms.len() implies ms[a].selector != ms[b].selector by {
        assert(a < 4 && b < 5);
    }
}

} // verus!
