use clipboard::{
    offered_in, Clipboard, ClipboardObserver, ClipboardOwner, Flavour, Handle, NoDataError,
    Registry, Transferable,
};

#[derive(Debug)]
struct Data {
    data: Vec<u8>,
    types: Vec<Flavour>,
}

impl Transferable for Data {
    fn get_data_flavours(&self) -> &[Flavour] {
        &self.types
    }

    fn is_flavour_supported(&self, flavour: &Flavour) -> bool {
        offered_in(self.get_data_flavours(), flavour)
    }

    fn get_data(&self, flavour: &Flavour) -> Option<&[u8]> {
        if self.is_flavour_supported(flavour) {
            Some(&self.data)
        } else {
            None
        }
    }
}

struct Owner {
    owns: bool,
    lost: usize,
    saw_old_content: Option<bool>,
    saw_new_content: bool,
}

impl Owner {
    fn new() -> Owner {
        Owner { owns: true, lost: 0, saw_old_content: None, saw_new_content: false }
    }
}

impl ClipboardOwner<Data> for Owner {
    fn lost_ownership(&mut self, source: &Clipboard<Data>, new_content: Option<&Data>) {
        self.owns = false;
        self.lost += 1;
        self.saw_old_content = Some(
            source
                .get_contents()
                .map(|c| c.data == b"first".to_vec())
                .unwrap_or(false),
        );
        self.saw_new_content = new_content.map(|c| c.data == b"second".to_vec()).unwrap_or(false);
    }
}

#[derive(Debug)]
struct Counter {
    changes: usize,
}

impl ClipboardObserver for Counter {
    fn clipboard_changed(&mut self) {
        self.changes += 1;
    }
}

fn mime(s: &str) -> Flavour {
    Flavour::parse(s).expect("noMime")
}

fn data(payload: &[u8], types: &[&str]) -> Data {
    Data { data: payload.to_vec(), types: types.iter().map(|t| mime(t)).collect() }
}

fn texts(fs: &[Flavour]) -> Vec<String> {
    fs.iter().map(|f| f.as_str().to_string()).collect()
}

#[test]
fn create() {
    let c: Clipboard<Data> = Clipboard::new("1".to_string());
    assert!(match c.get_contents() {
        None => true,
        Some(_) => false,
    });
    assert!(match c.get_data(&mime("text/plain")) {
        Ok(_) => false,
        Err(_) => true,
    });
    assert_eq!(c.available_data_flavours().len(), 0)
}

#[test]
#[allow(non_snake_case)]
fn testWithEmptyData() {
    let c = &mut Clipboard::new("TestClipboard2".to_string());
    let mut owners: Registry<Owner> = Registry::new();
    let mut observers: Registry<Counter> = Registry::new();
    let o1 = owners.add(Owner { owns: false, lost: 0, saw_old_content: None, saw_new_content: false });
    let _o2 = owners.add(Owner { owns: false, lost: 0, saw_old_content: None, saw_new_content: false });
    let d1 = Data { data: vec![], types: vec![] };
    c.set_contents(d1, o1, &mut owners, &mut observers);
    assert!(owners.get(o1).is_some());
    assert!(match c.get_contents() {
        None => false,
        Some(_) => true,
    });
    assert!(match c.get_data(&mime("text/plain")) {
        Ok(_) => true,
        Err(_) => false,
    });
}

#[test]
fn fresh_clipboard_is_empty() {
    let c: Clipboard<Data> = Clipboard::new("fresh".to_string());
    assert_eq!(c.get_name(), "fresh");
    assert!(c.get_contents().is_none());
    assert!(c.available_data_flavours().is_empty());
    assert_eq!(c.get_data(&mime("image/png")), Err(NoDataError {}));
    assert_eq!(c.is_data_flavour_available(&mime("text/plain")), Err(NoDataError {}));
}

#[test]
fn no_data_error_description() {
    assert_eq!(NoDataError {}.description(), "no content in this clipboard");
}

#[test]
fn scenario_text_plain_hello() {
    let mut c = Clipboard::new("clip1".to_string());
    let mut owners: Registry<Owner> = Registry::new();
    let mut observers: Registry<Counter> = Registry::new();
    let o1 = owners.add(Owner::new());
    c.set_contents(data(b"hello", &["text/plain"]), o1, &mut owners, &mut observers);
    assert_eq!(c.is_data_flavour_available(&mime("text/plain")), Ok(true));
    assert_eq!(c.is_data_flavour_available(&mime("image/png")), Ok(false));
    assert_eq!(c.get_data(&mime("image/png")), Ok(None));
    assert_eq!(c.get_data(&mime("text/plain")), Ok(Some(&b"hello"[..])));
}

#[test]
fn set_then_read_keeps_flavour_order() {
    let mut c = Clipboard::new("order".to_string());
    let mut owners: Registry<Owner> = Registry::new();
    let mut observers: Registry<Counter> = Registry::new();
    let o1 = owners.add(Owner::new());
    let types = ["text/html", "text/plain", "image/png"];
    c.set_contents(data(b"<b>x</b>", &types), o1, &mut owners, &mut observers);
    assert_eq!(texts(c.available_data_flavours()), vec!["text/html", "text/plain", "image/png"]);
    let content = c.get_contents().expect("content");
    assert_eq!(content.data, b"<b>x</b>".to_vec());
    for t in types.iter() {
        let f = mime(t);
        assert_eq!(c.get_data(&f), Ok(content.get_data(&f)));
        assert_eq!(c.get_data(&f), Ok(Some(&b"<b>x</b>"[..])));
    }
}

#[test]
fn same_owner_is_told_once_before_change() {
    let mut c = Clipboard::new("same".to_string());
    let mut owners: Registry<Owner> = Registry::new();
    let mut observers: Registry<Counter> = Registry::new();
    let o1 = owners.add(Owner::new());
    c.set_contents(data(b"first", &["text/plain"]), o1, &mut owners, &mut observers);
    assert_eq!(owners.get(o1).unwrap().lost, 0);
    c.set_contents(data(b"second", &["text/plain"]), o1, &mut owners, &mut observers);
    let o = owners.get(o1).unwrap();
    assert_eq!(o.lost, 1);
    assert!(!o.owns);
    assert_eq!(o.saw_old_content, Some(true));
    assert!(o.saw_new_content);
    assert_eq!(c.get_data(&mime("text/plain")), Ok(Some(&b"second"[..])));
}

#[test]
fn other_owner_does_not_tell_old_owner() {
    let mut c = Clipboard::new("other".to_string());
    let mut owners: Registry<Owner> = Registry::new();
    let mut observers: Registry<Counter> = Registry::new();
    let o1 = owners.add(Owner::new());
    let o2 = owners.add(Owner::new());
    c.set_contents(data(b"first", &["text/plain"]), o1, &mut owners, &mut observers);
    c.set_contents(data(b"second", &["text/plain"]), o2, &mut owners, &mut observers);
    assert_eq!(owners.get(o1).unwrap().lost, 0);
    assert!(owners.get(o1).unwrap().owns);
    assert_eq!(owners.get(o2).unwrap().lost, 0);
}

#[test]
fn removed_owner_is_not_told() {
    let mut c = Clipboard::new("gone".to_string());
    let mut owners: Registry<Owner> = Registry::new();
    let mut observers: Registry<Counter> = Registry::new();
    let o1 = owners.add(Owner::new());
    c.set_contents(data(b"first", &["text/plain"]), o1, &mut owners, &mut observers);
    let removed = owners.remove(o1).expect("live");
    assert_eq!(removed.lost, 0);
    assert!(!owners.is_live(o1));
    c.set_contents(data(b"second", &["text/plain"]), o1, &mut owners, &mut observers);
    assert!(owners.get(o1).is_none());
    assert_eq!(c.get_data(&mime("text/plain")), Ok(Some(&b"second"[..])));
}

#[test]
fn observer_told_once_per_call() {
    let mut c = Clipboard::new("obs".to_string());
    let mut owners: Registry<Owner> = Registry::new();
    let mut observers: Registry<Counter> = Registry::new();
    let o1 = owners.add(Owner::new());
    let b1 = observers.add(Counter { changes: 0 });
    let b2 = observers.add(Counter { changes: 0 });
    c.register_change_callback(b1);
    c.set_contents(data(b"a", &["text/plain"]), o1, &mut owners, &mut observers);
    assert_eq!(observers.get(b1).unwrap().changes, 1);
    assert_eq!(observers.get(b2).unwrap().changes, 0);
    c.set_contents(data(b"b", &["text/plain"]), o1, &mut owners, &mut observers);
    assert_eq!(observers.get(b1).unwrap().changes, 2);
}

#[test]
fn duplicate_registration_is_told_twice() {
    let mut c = Clipboard::new("dup".to_string());
    let mut owners: Registry<Owner> = Registry::new();
    let mut observers: Registry<Counter> = Registry::new();
    let o1 = owners.add(Owner::new());
    let b1 = observers.add(Counter { changes: 0 });
    c.register_change_callback(b1);
    c.register_change_callback(b1);
    c.set_contents(data(b"a", &["text/plain"]), o1, &mut owners, &mut observers);
    assert_eq!(observers.get(b1).unwrap().changes, 2);
    c.unregister_change_callback(b1, &observers);
    c.set_contents(data(b"b", &["text/plain"]), o1, &mut owners, &mut observers);
    assert_eq!(observers.get(b1).unwrap().changes, 2);
}

#[test]
fn unregistered_observer_is_not_told() {
    let mut c = Clipboard::new("unreg".to_string());
    let mut owners: Registry<Owner> = Registry::new();
    let mut observers: Registry<Counter> = Registry::new();
    let o1 = owners.add(Owner::new());
    let b1 = observers.add(Counter { changes: 0 });
    let b2 = observers.add(Counter { changes: 0 });
    c.register_change_callback(b1);
    c.register_change_callback(b2);
    c.unregister_change_callback(b1, &observers);
    c.set_contents(data(b"a", &["text/plain"]), o1, &mut owners, &mut observers);
    assert_eq!(observers.get(b1).unwrap().changes, 0);
    assert_eq!(observers.get(b2).unwrap().changes, 1);
}

#[test]
fn unregister_purges_removed_observers() {
    let mut c = Clipboard::new("purge".to_string());
    let mut owners: Registry<Owner> = Registry::new();
    let mut observers: Registry<Counter> = Registry::new();
    let o1 = owners.add(Owner::new());
    let dead = observers.add(Counter { changes: 0 });
    let b2 = observers.add(Counter { changes: 0 });
    c.register_change_callback(dead);
    c.register_change_callback(b2);
    assert_eq!(observers.remove(dead).map(|b| b.changes), Some(0));
    c.set_contents(data(b"a", &["text/plain"]), o1, &mut owners, &mut observers);
    assert_eq!(observers.get(b2).unwrap().changes, 1);
    c.unregister_change_callback(dead, &observers);
    c.set_contents(data(b"b", &["text/plain"]), o1, &mut owners, &mut observers);
    assert_eq!(observers.get(b2).unwrap().changes, 2);
    assert!(observers.get(dead).is_none());
}

#[test]
fn handles_are_not_reused() {
    let mut observers: Registry<Counter> = Registry::new();
    let a: Handle = observers.add(Counter { changes: 0 });
    assert!(observers.remove(a).is_some());
    assert!(observers.remove(a).is_none());
    let b = observers.add(Counter { changes: 7 });
    assert_ne!(a, b);
    assert!(!observers.is_live(a));
    assert_eq!(observers.get(b).unwrap().changes, 7);
}

#[test]
fn flavour_parse_normalises_case() {
    let f = mime("TEXT/Plain");
    assert_eq!(f.as_str(), "text/plain");
    assert!(f.matches(&mime("text/plain")));
    assert!(!f.matches(&mime("text/html")));
}

#[test]
fn flavour_parse_rejects_garbage() {
    assert!(Flavour::parse("not a mime").is_err());
    assert!(Flavour::parse("").is_err());
}

#[test]
fn supported_flavour_uses_mime_equality() {
    let d = data(b"x", &["text/plain; charset=utf-8", "image/png"]);
    assert!(d.is_flavour_supported(&mime("image/png")));
    assert!(d.is_flavour_supported(&mime("text/plain; charset=UTF-8")));
    assert!(!d.is_flavour_supported(&mime("text/plain")));
}

#[test]
fn flavour_parse_refuses_non_ascii() {
    assert!(Flavour::parse("ab/c; x=\"\u{e9}\u{e9}\u{e9}\u{e9}\"").is_err());
    let f = mime("text/plain; x=y");
    assert!(!f.matches(&mime("ab/c; x=\"abcd\"")));
    assert!(f.matches(&mime("text/plain; x=y")));
}

#[test]
fn offered_in_checks_membership() {
    let fs = vec![mime("text/html"), mime("image/png")];
    assert!(offered_in(&fs, &mime("image/png")));
    assert!(!offered_in(&fs, &mime("text/plain")));
    assert!(!offered_in(&[], &mime("text/plain")));
}

#[test]
fn unsupported_flavour_is_ok_none() {
    let mut c = Clipboard::new("none".to_string());
    let mut owners: Registry<Owner> = Registry::new();
    let mut observers: Registry<Counter> = Registry::new();
    let o1 = owners.add(Owner::new());
    c.set_contents(data(b"x", &["text/plain"]), o1, &mut owners, &mut observers);
    assert_eq!(c.get_data(&mime("application/json")), Ok(None));
    assert_eq!(c.is_data_flavour_available(&mime("application/json")), Ok(false));
}
