//! The request extractor: a wrapper that hands a request to the handlers,
//! and what the handlers read from a request.
use vstd::prelude::*;
use crate::text::{chars_of, push_char};

verus! {

/// An HTTP request extractor: it wraps a request and gives access to it.
pub struct AxumExtractor<T>(pub T);

impl<T> std::ops::Deref for AxumExtractor<T> {
    type Target = T;

    /// The wrapped request.
    fn deref(&self) -> (r: &T)
        ensures
            *r == self.0,
    {
        &self.0
    }
}

impl<T> AxumExtractor<T> {
    /// The wrapped request, for changing it.
    pub fn deref_mut(&mut self) -> (r: &mut T)
        ensures
            *r == old(self).0,
            final(self).0 == *final(r),
    {
        &mut self.0
    }
}

/// What a request holds, as far as the handlers read it.
#[derive(Debug)]
pub struct Request {
    /// The method, such as `GET`.
    pub method: String,
    /// The path of the URI.
    pub path: String,
    /// The route that the router matched, where it matched one.
    pub matched_path: Option<String>,
    /// The query of the URI, where it has one.
    pub query: Option<String>,
    /// The headers, in order: a name and a value each.
    pub headers: Vec<(String, String)>,
    /// The address of the peer, where it is known.
    pub remote_addr: Option<String>,
}

/// A letter in lower case; any other character as it is.
pub open spec fn lower(c: char) -> char {
    if 'A' <= c && c <= 'Z' {
        ((c as u8) + 32) as char
    } else {
        c
    }
}

/// A text with its letters in lower case.
pub open spec fn lowered(s: Seq<char>) -> Seq<char> {
    Seq::new(s.len(), |i: int| lower(s[i]))
}

/// The index of the first header at or after `from` whose name is `name`,
/// whatever the case of the letters, or -1.
pub open spec fn header_from(headers: Seq<(String, String)>, name: Seq<char>, from: int) -> int
    decreases headers.len() - from,
{
    if from < 0 || from >= headers.len() {
        -1
    } else if lowered(headers[from].0@) == lowered(name) {
        from
    } else {
        header_from(headers, name, from + 1)
    }
}

/// The value of the first header whose name is `name`, whatever the case
/// of the letters.
pub open spec fn header_value(headers: Seq<(String, String)>, name: Seq<char>) -> Option<
    Seq<char>,
> {
    let i = header_from(headers, name, 0);
    if i >= 0 {
        Some(headers[i].1@)
    } else {
        None
    }
}

/// The first index at or after `from` that holds no space.
pub open spec fn spaces_end(s: Seq<char>, from: int) -> int
    decreases s.len() - from,
{
    if from < 0 || from >= s.len() || s[from] != ' ' {
        from
    } else {
        spaces_end(s, from + 1)
    }
}

/// The first index at or after `from` that holds a comma or a space, or
/// the length of the text.
pub open spec fn item_end(s: Seq<char>, from: int) -> int
    decreases s.len() - from,
{
    if from < 0 || from >= s.len() || s[from] == ',' || s[from] == ' ' {
        from
    } else {
        item_end(s, from + 1)
    }
}

/// The first item of a list that is separated by commas: what stands
/// after the leading spaces, up to the first comma or space.
pub open spec fn first_item(s: Seq<char>) -> Seq<char> {
    s.subrange(spaces_end(s, 0), item_end(s, spaces_end(s, 0)))
}

/// The address of the client of a request: the first address of the
/// header `x-forwarded-for`; else the header `x-real-ip`; else the address
/// of the peer.
pub open spec fn client_address(
    headers: Seq<(String, String)>,
    remote_addr: Option<Seq<char>>,
) -> Option<Seq<char>> {
    match header_value(headers, "x-forwarded-for"@) {
        Some(list) => Some(first_item(list)),
        None => match header_value(headers, "x-real-ip"@) {
            Some(address) => Some(address),
            None => remote_addr,
        },
    }
}

fn lower_of(c: char) -> (r: char)
    ensures
        r == lower(c),
{
    if 'A' <= c && c <= 'Z' {
        ((c as u8) + 32) as char
    } else {
        c
    }
}

fn same_name(a: &str, b: &str) -> (r: bool)
    ensures
        r == (lowered(a@) == lowered(b@)),
{
    let x = chars_of(a);
    let y = chars_of(b);
    if x.len() != y.len() {
        proof {
            assert(lowered(a@).len() != lowered(b@).len());
        }
        return false;
    }
    let mut i: usize = 0;
    while i < x.len()
        invariant
            i <= x.len(),
            x.len() == y.len(),
            x@ == a@,
            y@ == b@,
            forall|j: int| 0 <= j < i ==> lower(a@[j]) == lower(b@[j]),
        decreases x.len() - i,
    {
        if lower_of(x[i]) != lower_of(y[i]) {
            proof {
                assert(lowered(a@)[i as int] != lowered(b@)[i as int]);
            }
            return false;
        }
        i += 1;
    }
    proof {
        assert(lowered(a@) =~= lowered(b@));
    }
    true
}

proof fn lemma_spaces_end(s: Seq<char>, from: int, to: int)
    requires
        0 <= from <= to <= s.len(),
        forall|j: int| from <= j < to ==> s[j] == ' ',
    ensures
        spaces_end(s, from) == spaces_end(s, to),
    decreases to - from,
{
    if from < to {
        lemma_spaces_end(s, from + 1, to);
    }
}

proof fn lemma_item_end(s: Seq<char>, from: int, to: int)
    requires
        0 <= from <= to <= s.len(),
        forall|j: int| from <= j < to ==> s[j] != ',' && s[j] != ' ',
    ensures
        item_end(s, from) == item_end(s, to),
    decreases to - from,
{
    if from < to {
        lemma_item_end(s, from + 1, to);
    }
}

/// The first item of a list that is separated by commas.
pub fn first_of_list(list: &str) -> (r: String)
    ensures
        r@ == first_item(list@),
{
    let chars = chars_of(list);
    let n = chars.len();
    let mut start: usize = 0;
    while start < n && chars[start] == ' '
        invariant
            start <= n,
            n == chars.len(),
            chars@ == list@,
            forall|j: int| 0 <= j < start ==> list@[j] == ' ',
        decreases n - start,
    {
        start += 1;
    }
    proof {
        lemma_spaces_end(list@, 0, start as int);
    }
    let mut r = String::new();
    let mut end: usize = start;
    while end < n && chars[end] != ',' && chars[end] != ' '
        invariant
            start <= end <= n,
            n == chars.len(),
            chars@ == list@,
            r@ == list@.subrange(start as int, end as int),
            forall|j: int| start <= j < end ==> list@[j] != ',' && list@[j] != ' ',
        decreases n - end,
    {
        push_char(&mut r, chars[end]);
        end += 1;
    }
    proof {
        lemma_item_end(list@, start as int, end as int);
    }
    r
}

impl AxumExtractor<Request> {
    /// The method of the request.
    pub fn request_method(&self) -> (r: &str)
        ensures
            r@ == self.0.method@,
    {
        self.0.method.as_str()
    }

    /// The path of the request.
    pub fn request_path(&self) -> (r: &str)
        ensures
            r@ == self.0.path@,
    {
        self.0.path.as_str()
    }

    /// The route that the router matched, or the path of the request
    /// where it matched none.
    pub fn matched_route(&self) -> (r: &str)
        ensures
            r@ == (match self.0.matched_path {
                Some(route) => route@,
                None => self.0.path@,
            }),
    {
        match &self.0.matched_path {
            Some(route) => route.as_str(),
            None => self.0.path.as_str(),
        }
    }

    /// The query of the request, where it has one.
    pub fn query_string(&self) -> (r: Option<&str>)
        ensures
            match r {
                Some(query) => self.0.query is Some && query@ == self.0.query->0@,
                None => self.0.query is None,
            },
    {
        match &self.0.query {
            Some(query) => Some(query.as_str()),
            None => None,
        }
    }

    /// The headers of the request.
    pub fn header_map(&self) -> (r: &Vec<(String, String)>)
        ensures
            r@ == self.0.headers@,
    {
        &self.0.headers
    }

    /// The value of the first header named `name`, whatever the case of
    /// the letters.
    pub fn get_header(&self, name: &str) -> (r: Option<&str>)
        ensures
            match r {
                Some(value) => header_value(self.0.headers@, name@) == Some(value@),
                None => header_value(self.0.headers@, name@) is None,
            },
    {
        let headers = &self.0.headers;
        let mut i: usize = 0;
        while i < headers.len()
            invariant
                i <= headers.len(),
                headers@ == self.0.headers@,
                header_from(headers@, name@, 0) == header_from(headers@, name@, i as int),
            decreases headers.len() - i,
        {
            if same_name(headers[i].0.as_str(), name) {
                return Some(headers[i].1.as_str());
            }
            i += 1;
        }
        None
    }

    /// The address of the client: the first address of the header
    /// `x-forwarded-for`; else the header `x-real-ip`; else the address of
    /// the peer.
    pub fn client_ip(&self) -> (r: Option<String>)
        ensures
            match r {
                Some(address) => client_address(
                    self.0.headers@,
                    match self.0.remote_addr {
                        Some(peer) => Some(peer@),
                        None => None,
                    },
                ) == Some(address@),
                None => client_address(
                    self.0.headers@,
                    match self.0.remote_addr {
                        Some(peer) => Some(peer@),
                        None => None,
                    },
                ) is None,
            },
    {
        match self.get_header("x-forwarded-for") {
            Some(list) => Some(first_of_list(list)),
            None => match self.get_header("x-real-ip") {
                Some(address) => Some(String::from_str(address)),
                None => match &self.0.remote_addr {
                    Some(peer) => Some(peer.clone()),
                    None => None,
                },
            },
        }
    }
}

} // verus!
