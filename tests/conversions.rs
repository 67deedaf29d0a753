use std::convert::Infallible;

use from_os_str::{
    Error, FromPlatformStr, ParseText, PlatformPath, PlatformPathBuf, Specialize1, Specialize2,
    Specialize3, Specialize4, Specialize5, Specialize6, Specialize7, Wrap,
};

#[derive(Debug, Clone, PartialEq, Eq)]
struct Foo(String);

impl<'a> FromPlatformStr<'a> for Foo {
    fn from_platform_str(s: &'a [u8]) -> Self {
        Foo("OS: ".to_string() + &String::from_utf8_lossy(s))
    }
}

impl ParseText for Foo {
    type Err = Infallible;

    fn parse_text(s: &str) -> Result<Self, Self::Err> {
        Ok(Foo("STR: ".to_string() + s))
    }
}

#[test]
fn it_works() {
    let os_str: &[u8] = "123".as_bytes();
    let os_str_2 = (&&&&&&&Wrap::<&[u8]>::new(os_str)).specialized().unwrap();
    assert_eq!(os_str_2, os_str);

    let path = (&&&&&&&Wrap::<PlatformPath>::new(os_str)).specialized().unwrap();
    assert_eq!(path, PlatformPath::new("123".as_bytes()));
    let path = (&&&&&&&Wrap::<PlatformPathBuf>::new(os_str)).specialized().unwrap();
    assert_eq!(path.as_path(), PlatformPath::new("123".as_bytes()));

    let str = (&&&&&&&Wrap::<&str>::new(os_str)).specialized().unwrap();
    assert_eq!(str, "123");
    let string = (&&&&&&&Wrap::<String>::new(os_str)).specialized().unwrap();
    assert_eq!(string, "123".to_string());
    let int = (&&&&&&&Wrap::<u8>::new(os_str)).specialized().unwrap();
    assert_eq!(int, 123);

    // the platform-bytes capability outranks parsing
    let foo = (&&&&&&&Wrap::<Foo>::new(os_str)).specialized();
    assert_eq!(foo, Ok(Foo("OS: 123".to_owned())));
}

#[test]
fn it_works_with_non_utf8() {
    let os_str: &[u8] = &[0xff, 0xff];
    let os_str_2 = (&&&&&&&Wrap::<&[u8]>::new(os_str)).specialized().unwrap();
    assert_eq!(os_str_2, os_str);

    let path = (&&&&&&&Wrap::<PlatformPath>::new(os_str)).specialized().unwrap();
    assert_eq!(path, PlatformPath::new(os_str));
    let path = (&&&&&&&Wrap::<PlatformPathBuf>::new(os_str)).specialized().unwrap();
    assert_eq!(path.as_path(), PlatformPath::new(os_str));
    let str = (&&&&&&&Wrap::<&str>::new(os_str)).specialized();
    assert_eq!(str, Err(Error::Utf8));
    let string = (&&&&&&&Wrap::<String>::new(os_str)).specialized();
    assert_eq!(string, Err(Error::Utf8));
    let int = (&&&&&&&Wrap::<u8>::new(os_str)).specialized();
    assert_eq!(int, Err(Error::Utf8));

    // the platform-bytes capability outranks parsing
    let foo = (&&&&&&&Wrap::<Foo>::new(os_str)).specialized();
    assert_eq!(foo, Ok(Foo("OS: \u{fffd}\u{fffd}".to_owned())));
}
