use keybinds::{config_path, parse_bindings, App, Binding};

fn pairs(text: &str) -> Vec<(String, String, usize)> {
    parse_bindings(text).into_iter().map(|b| (b.combo, b.action, b.idx)).collect()
}

fn entry(combo: &str, action: &str, idx: usize) -> (String, String, usize) {
    (combo.to_string(), action.to_string(), idx)
}

/// The same reading, written with std's string functions.
fn by_std(text: &str) -> Vec<(String, String, usize)> {
    let mut found = Vec::new();
    for line in text.lines() {
        if let Some(rest) = line.strip_prefix("bind=") {
            let fields: Vec<&str> = rest.split(",").collect();
            if fields.len() >= 3 {
                let combo = format!("{}+{}", fields[0], fields[1]);
                found.push((combo, fields[2..].join(" "), found.len()));
            }
        }
    }
    found
}

#[test]
fn one_line_gives_one_entry() {
    assert_eq!(
        pairs("bind=SUPER,Return,exec kitty"),
        vec![entry("SUPER+Return", "exec kitty", 0)]
    );
    assert_eq!(
        pairs("bind=SUPER,Return,exec kitty\n"),
        vec![entry("SUPER+Return", "exec kitty", 0)]
    );
}

#[test]
fn line_with_two_fields_is_skipped() {
    assert_eq!(pairs("bind=SUPER,Return"), vec![]);
    assert_eq!(
        pairs("bind=SUPER,Return\nbind=ALT,Tab,focusstack,next\n"),
        vec![entry("ALT+Tab", "focusstack next", 0)]
    );
}

#[test]
fn line_with_one_field_or_none_is_skipped() {
    assert_eq!(pairs("bind=SUPER"), vec![]);
    assert_eq!(pairs("bind="), vec![]);
    assert_eq!(pairs("bind=\nbind=a\nbind=a,b\n"), vec![]);
}

#[test]
fn text_without_bindings_gives_no_viewer() {
    let text = "# mango\nborderpx=2\n\ngappih=5\nexec-once=waybar\n";
    let bindings = parse_bindings(text);
    assert!(bindings.is_empty());
    assert!(App::new(bindings).is_none());
}

#[test]
fn empty_text_gives_nothing() {
    assert_eq!(pairs(""), vec![]);
    assert_eq!(pairs("\n"), vec![]);
    assert_eq!(pairs("\n\n\n"), vec![]);
}

#[test]
fn action_keeps_its_fields_joined_by_spaces() {
    assert_eq!(
        pairs("bind=SUPER,d,spawn,rofi,-show,drun"),
        vec![entry("SUPER+d", "spawn rofi -show drun", 0)]
    );
    assert_eq!(pairs("bind=SUPER,d,spawn,"), vec![entry("SUPER+d", "spawn ", 0)]);
    assert_eq!(pairs("bind=SUPER,d,,x"), vec![entry("SUPER+d", " x", 0)]);
}

#[test]
fn empty_fields_are_fields() {
    assert_eq!(pairs("bind=,,"), vec![entry("+", "", 0)]);
    assert_eq!(pairs("bind=,,,"), vec![entry("+", " ", 0)]);
    assert_eq!(pairs("bind=NONE,,quit"), vec![entry("NONE+", "quit", 0)]);
}

#[test]
fn entries_keep_the_order_of_their_lines() {
    let text = "bind=SUPER,Return,spawn,foot\n\
                # a comment\n\
                bind=SUPER,q,killclient\n\
                gappoh=10\n\
                bind=broken\n\
                bind=SUPER+SHIFT,e,quit\n";
    assert_eq!(
        pairs(text),
        vec![
            entry("SUPER+Return", "spawn foot", 0),
            entry("SUPER+q", "killclient", 1),
            entry("SUPER+SHIFT+e", "quit", 2),
        ]
    );
}

#[test]
fn marker_counts_only_at_the_start_of_a_line() {
    assert_eq!(pairs(" bind=SUPER,a,b"), vec![]);
    assert_eq!(pairs("#bind=SUPER,a,b"), vec![]);
    assert_eq!(pairs("Bind=SUPER,a,b"), vec![]);
    assert_eq!(pairs("bind =SUPER,a,b"), vec![]);
    assert_eq!(pairs("bin"), vec![]);
    assert_eq!(pairs("axisbind=SUPER,a,b"), vec![]);
}

#[test]
fn marker_is_taken_off_once() {
    assert_eq!(pairs("bind=bind=A,B,C\n"), vec![entry("bind=A+B", "C", 0)]);
    assert_eq!(pairs("bind=bind=SUPER,a,b"), vec![entry("bind=SUPER+a", "b", 0)]);
    assert_eq!(
        pairs("bind=bind=bind=x,y,z,bind="),
        vec![entry("bind=bind=x+y", "z bind=", 0)]
    );
    assert_eq!(pairs("bind=bind=x,y"), vec![]);
    assert_eq!(pairs("bind=bind="), vec![]);
    assert_eq!(pairs("bind=x,bind=y,z"), vec![entry("x+bind=y", "z", 0)]);
}

#[test]
fn line_endings_do_not_belong_to_the_line() {
    assert_eq!(
        pairs("bind=a,b,c\r\nbind=d,e,f\r\n"),
        vec![entry("a+b", "c", 0), entry("d+e", "f", 1)]
    );
    assert_eq!(
        pairs("bind=a,b,c\nbind=d,e,f"),
        vec![entry("a+b", "c", 0), entry("d+e", "f", 1)]
    );
    assert_eq!(pairs("bind=a,b,c\r\r\n"), vec![entry("a+b", "c\r", 0)]);
}

#[test]
fn return_without_line_feed_stays_in_the_line() {
    assert_eq!(pairs("bind=a,b,c\r"), vec![entry("a+b", "c\r", 0)]);
    assert_eq!(pairs("bind=a,b,c\rbind=d,e,f"), vec![entry("a+b", "c\rbind=d e f", 0)]);
    assert_eq!(pairs("\rbind=a,b,c"), vec![]);
}

#[test]
fn text_beyond_ascii_is_read_by_characters() {
    assert_eq!(
        pairs("bind=SUPER,ä,spawn,café → münü\nbind=日本,語,キー"),
        vec![entry("SUPER+ä", "spawn café → münü", 0), entry("日本+語", "キー", 1)]
    );
}

#[test]
fn reading_agrees_with_std_string_functions() {
    let texts = [
        "",
        "\n",
        "\r\n",
        "\r",
        "bind=",
        "bind=,",
        "bind=,,",
        "bind=a,b,c",
        "bind=a,b,c\n",
        "bind=a,b,c\r\n",
        "bind=a,b,c\r",
        "bind=a,b,c\n\r",
        "bind=a,b,c\n\n\nbind=d,e,f,g,h\n",
        "x\nbind=a,b\nbind=a,b,c,\n,bind=a,b,c\n",
        "bind=bind=bind=a,b,c\nbind=bindbind=a,b,c\n",
        "bind=a,b,c\r\n\r\nbind=,,,,\r\nbind= a , b , c \r\n",
        "bindbind=a,b,c\nbin=a,b,c\nbind=a\tb,c,d e f",
    ];
    for text in texts {
        assert_eq!(pairs(text), by_std(text), "text {:?}", text);
    }
}

#[test]
fn entries_are_numbered_by_their_place() {
    let text = "bind=a,b,c\n".repeat(40);
    let bindings = parse_bindings(&text);
    assert_eq!(bindings.len(), 40);
    for (place, binding) in bindings.iter().enumerate() {
        assert_eq!(binding.idx, place);
    }
}

#[test]
fn config_path_lies_under_the_home_directory_where_one_is_known() {
    let path = config_path();
    match dirs::home_dir().and_then(|home| home.into_os_string().into_string().ok()) {
        Some(home) => assert_eq!(path, format!("{}/.config/mango/config.conf", home)),
        None => assert_eq!(path, "~/.config/mango/config.conf"),
    }
    assert!(path.ends_with("/.config/mango/config.conf"), "path {:?}", path);
}

#[test]
fn default_binding_is_empty() {
    let binding = Binding::default();
    assert_eq!(binding.combo, "");
    assert_eq!(binding.action, "");
    assert_eq!(binding.idx, 0);
}

#[test]
fn clone_keeps_every_field() {
    let binding = Binding { combo: "SUPER+q".to_string(), action: "killclient".to_string(), idx: 7 };
    let copy = binding.clone();
    assert_eq!(copy.combo, "SUPER+q");
    assert_eq!(copy.action, "killclient");
    assert_eq!(copy.idx, 7);
}
