use request_core::headers::{check_header_value, HeaderEntry, HeaderMap};
use request_core::url::Url;

fn map(items: &[(&str, &str)]) -> HeaderMap {
    let mut m = HeaderMap::new();
    for (k, v) in items {
        m.append(k.to_string(), v.as_bytes().to_vec(), false);
    }
    m
}

fn names(m: &HeaderMap) -> Vec<&str> {
    m.entries.iter().map(|e| e.name.as_str()).collect()
}

#[test]
fn multimap_keeps_order_per_name() {
    let mut m = map(&[("a", "1"), ("b", "2"), ("a", "3")]);
    assert_eq!(m.len(), 3);
    assert!(!m.is_empty() && HeaderMap::new().is_empty());
    assert_eq!(m.get("a").unwrap(), b"1");
    assert_eq!(m.get("b").unwrap(), b"2");
    assert!(m.get("c").is_none() && !m.contains_key("c") && m.contains_key("a"));
    let all: Vec<Vec<u8>> = m.get_all("a").into_iter().map(|e| e.value).collect();
    assert_eq!(all, vec![b"1".to_vec(), b"3".to_vec()]);
    assert!(m.get_all("zz").is_empty());

    assert!(m.remove("a"));
    assert_eq!(names(&m), vec!["b"]);
    assert!(!m.remove("a"));
    assert_eq!(m.len(), 1);

    assert!(!m.insert("c".to_string(), b"9".to_vec(), true));
    assert!(m.insert("b".to_string(), b"8".to_vec(), false));
    assert_eq!(names(&m), vec!["c", "b"]);
    assert_eq!(m.get("b").unwrap(), b"8");
    assert!(m.get_all("c")[0].sensitive);
    assert_eq!(m.duplicate(), m);
    let entry = HeaderEntry { name: "n".to_string(), value: vec![1], sensitive: true };
    assert_eq!(entry.duplicate(), entry);
}

#[test]
fn replace_headers_replaces_by_name() {
    let mut m = map(&[("keep", "k"), ("foo", "old1"), ("mid", "m"), ("foo", "old2")]);
    m.replace_headers(map(&[("foo", "bar"), ("new", "n"), ("foo", "baz")]));
    assert_eq!(names(&m), vec!["keep", "mid", "foo", "new", "foo"]);
    let foo: Vec<Vec<u8>> = m.get_all("foo").into_iter().map(|e| e.value).collect();
    assert_eq!(foo, vec![b"bar".to_vec(), b"baz".to_vec()]);
    m.replace_headers(HeaderMap::new());
    assert_eq!(m.len(), 5);
}

#[test]
fn lookup_in_any_case() {
    let mut m = map(&[("Content-Type", "text/plain"), ("x-a", "1"), ("CONTENT-TYPE", "text/html"), ("X-É", "2")]);
    assert_eq!(m.get("content-type").unwrap(), b"text/plain");
    assert_eq!(m.get("CONTENT-TYPE").unwrap(), b"text/plain");
    assert!(m.contains_key("Content-type") && m.contains_key("X-A"));
    assert_eq!(m.get_all("cOnTeNt-TyPe").len(), 2);
    assert!(m.get("x-é").is_none() && m.contains_key("x-É"));
    assert!(m.get("content type").is_none());
    assert!(m.get("accept").is_none());

    assert!(m.insert("content-TYPE".to_string(), b"application/json".to_vec(), false));
    assert_eq!(m.get_all("Content-Type").len(), 1);
    assert_eq!(m.get("content-type").unwrap(), b"application/json");
    assert!(m.remove("X-a"));
    assert!(!m.remove("x-A"));
    assert_eq!(m.len(), 2);

    let mut n = map(&[("Accept", "a"), ("keep", "k")]);
    n.replace_headers(map(&[("ACCEPT", "b")]));
    assert_eq!(n.len(), 2);
    assert_eq!(n.get("accept").unwrap(), b"b");
}

#[test]
fn header_value_bytes() {
    assert!(check_header_value(b""));
    assert!(check_header_value(b"plain text \t with tab"));
    assert!(check_header_value(&[32, 126, 128, 255]));
    assert!(!check_header_value(&[31]));
    assert!(!check_header_value(&[127]));
    assert!(!check_header_value(b"a\r\nb"));
    assert!(!check_header_value(&[b'a', 0]));
}

#[test]
fn url_parts() {
    assert!(Url::parse("no scheme").is_none());
    assert!(Url::parse("").is_none());
    let u = Url::parse("HTTPS://User:Pw@Host.Example:443/a/../b?x=1#frag").unwrap();
    assert_eq!(u.as_str(), "https://User:Pw@host.example/b?x=1#frag");
    assert_eq!(u.scheme(), "https");
    assert!(u.has_authority());
    assert_eq!(u.username(), "User");
    assert_eq!(u.password().as_deref(), Some("Pw"));
    assert_eq!(u.query().as_deref(), Some("x=1"));
    assert_eq!(u.clear_username().as_str(), "https://:Pw@host.example/b?x=1#frag");
    assert_eq!(u.clear_password().as_str(), "https://User@host.example/b?x=1#frag");
    assert_eq!(u.clear_fragment().as_str(), "https://User:Pw@host.example/b?x=1");
    assert_eq!(u.clear_query().as_str(), "https://User:Pw@host.example/b#frag");
    assert_eq!(u.duplicate().as_str(), u.as_str());
    assert!(u.fits_wire());
    assert_eq!(u.join("c/d").unwrap().as_str(), "https://User:Pw@host.example/c/d");
    assert_eq!(u.join("http://other.example").unwrap().as_str(), "http://other.example/");
    assert!(u.join("http://[::1").is_none());
    let mail = Url::parse("mailto:a@b.example").unwrap();
    assert!(!mail.has_authority());
    assert_eq!(mail.clear_username().as_str(), "mailto:a@b.example");
    assert_eq!(mail.password(), None);
    assert_eq!(mail.query(), None);
    let added = u.append_pairs(&vec![("k v".to_string(), "é&".to_string())]).unwrap();
    assert_eq!(added.as_str(), "https://User:Pw@host.example/b?x=1&k+v=%C3%A9%26#frag");
    assert_eq!(added.query().as_deref(), Some("x=1&k+v=%C3%A9%26"));
    let none = Url::parse("https://h.example/").unwrap().append_pairs(&Vec::new()).unwrap();
    assert_eq!(none.as_str(), "https://h.example/?");
    assert_eq!(none.query().as_deref(), Some(""));
}
