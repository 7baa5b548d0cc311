//! The route table: which handler answers which method and path.

use crate::error::RouteError;
use crate::http::Method;
use vstd::prelude::*;
use vstd::string::is_ascii;

verus! {

/// The handlers of the service. The set is closed: a route names one of them.
#[derive(Clone, Copy, Debug, PartialEq, Eq, Structural)]
pub enum Handler {
    /// Answers with the fixed greeting.
    Greeting,
    /// Lists the products of the store.
    Products,
}

/// One route: a method and a literal path, and the handler that answers them.
#[derive(Clone, Debug, PartialEq, Eq)]
pub struct RouteEntry {
    pub method: Method,
    pub path: String,
    pub handler: Handler,
}

/// The mathematical value of a [`RouteEntry`].
pub struct RouteView {
    pub method: Method,
    pub path: Seq<char>,
    pub handler: Handler,
}

impl View for RouteEntry {
    type V = RouteView;

    open spec fn view(&self) -> RouteView {
        RouteView { method: self.method, path: self.path@, handler: self.handler }
    }
}

/// Whether a character may stand unescaped in a route path: a letter or
/// digit of ASCII, the slash, or one of ``- . _ ~ ! $ & ' ( ) * + , ; = : @``.
pub open spec fn path_char(c: char) -> bool {
    ||| 'a' <= c <= 'z'
    ||| 'A' <= c <= 'Z'
    ||| '0' <= c <= '9'
    ||| c == '/'
    ||| c == '-'
    ||| c == '.'
    ||| c == '_'
    ||| c == '~'
    ||| c == '!'
    ||| c == '$'
    ||| c == '&'
    ||| c == '\''
    ||| c == '('
    ||| c == ')'
    ||| c == '*'
    ||| c == '+'
    ||| c == ','
    ||| c == ';'
    ||| c == '='
    ||| c == ':'
    ||| c == '@'
}

/// Whether a text is a well-formed route path: it begins with a slash and
/// holds only characters that may stand unescaped in a path.
pub open spec fn valid_path(path: Seq<char>) -> bool {
    &&& path.len() > 0
    &&& path[0] == '/'
    &&& forall|i: int| 0 <= i < path.len() ==> path_char(#[trigger] path[i])
}

/// Whether a route answers a method and path: both are the route's own.
pub open spec fn answers(route: RouteView, method: Method, path: Seq<char>) -> bool {
    route.method == method && route.path == path
}

/// The handler of the first route that answers the method and path.
pub open spec fn lookup(routes: Seq<RouteView>, method: Method, path: Seq<char>) -> Option<
    Handler,
>
    decreases routes.len(),
{
    if routes.len() == 0 {
        None
    } else if answers(routes[0], method, path) {
        Some(routes[0].handler)
    } else {
        lookup(routes.drop_first(), method, path)
    }
}

/// What every route table holds: well-formed paths, and no two routes for
/// the same method and path.
pub open spec fn well_formed(routes: Seq<RouteView>) -> bool {
    &&& forall|i: int| 0 <= i < routes.len() ==> valid_path(#[trigger] routes[i].path)
    &&& forall|i: int, j: int|
        0 <= i < j < routes.len() ==> !answers(routes[i], routes[j].method, routes[j].path)
}

/// The routes of the service: the greeting at `/` and the product listing at
/// `/products`, both for `GET`.
pub open spec fn service_table() -> Seq<RouteView> {
    seq![
        RouteView { method: Method::Get, path: "/"@, handler: Handler::Greeting },
        RouteView { method: Method::Get, path: "/products"@, handler: Handler::Products },
    ]
}

/// A lookup finds nothing exactly when no route answers.
pub proof fn lemma_lookup_none(routes: Seq<RouteView>, method: Method, path: Seq<char>)
    ensures
        lookup(routes, method, path) is None <==> forall|i: int|
            0 <= i < routes.len() ==> !answers(#[trigger] routes[i], method, path),
    decreases routes.len(),
{
    if routes.len() > 0 {
        let rest = routes.drop_first();
        lemma_lookup_none(rest, method, path);
        if !answers(routes[0], method, path) {
            if lookup(rest, method, path) is None {
                assert forall|i: int| 0 <= i < routes.len() implies !answers(
                    #[trigger] routes[i],
                    method,
                    path,
                ) by {
                    if i > 0 {
                        assert(routes[i] == rest[i - 1]);
                    }
                }
            } else {
                let i = choose|i: int| 0 <= i < rest.len() && answers(rest[i], method, path);
                assert(answers(routes[i + 1], method, path));
            }
        }
    }
}

/// In a well-formed table every route is found under its own method and
/// path: no earlier route hides it.
pub proof fn lemma_lookup_finds(routes: Seq<RouteView>, i: int)
    requires
        well_formed(routes),
        0 <= i < routes.len(),
    ensures
        lookup(routes, routes[i].method, routes[i].path) == Some(routes[i].handler),
    decreases routes.len(),
{
    if i > 0 {
        let rest = routes.drop_first();
        assert forall|a: int, b: int| 0 <= a < b < rest.len() implies !answers(
            rest[a],
            rest[b].method,
            rest[b].path,
        ) by {
            assert(rest[a] == routes[a + 1] && rest[b] == routes[b + 1]);
        }
        assert forall|a: int| 0 <= a < rest.len() implies valid_path(#[trigger] rest[a].path) by {
            assert(rest[a] == routes[a + 1]);
        }
        assert(rest[i - 1] == routes[i]);
        lemma_lookup_finds(rest, i - 1);
    }
}

/// The whole surface of the service: `GET /` is the greeting, `GET /products`
/// the product listing, and nothing else has a route.
pub proof fn lemma_service_table(method: Method, path: Seq<char>)
    ensures
        well_formed(service_table()),
        lookup(service_table(), method, path) == if method == Method::Get && path == "/"@ {
            Some(Handler::Greeting)
        } else if method == Method::Get && path == "/products"@ {
            Some(Handler::Products)
        } else {
            None
        },
{
    reveal_strlit("/");
    reveal_strlit("/products");
    reveal_with_fuel(lookup, 3);
    assert("/"@.len() != "/products"@.len());
}

/// Tells whether a byte of ASCII may stand unescaped in a route path.
fn is_path_byte(b: u8) -> (out: bool)
    requires
        b <= 0x7f,
    ensures
        out == path_char(b as char),
{
    // a-z, A-Z, 0-9, then / - . _ ~ ! $ & ' ( ) * + , ; = : @
    (97 <= b && b <= 122) || (65 <= b && b <= 90) || (48 <= b && b <= 57) || b == 47 || b == 45
        || b == 46 || b == 95 || b == 126 || b == 33 || b == 36 || b == 38 || b == 39 || b == 40
        || b == 41 || b == 42 || b == 43 || b == 44 || b == 59 || b == 61 || b == 58 || b == 64
}

/// Tells whether a text is a well-formed route path.
pub fn is_valid_path(path: &str) -> (out: bool)
    ensures
        out == valid_path(path@),
{
    if !path.is_ascii() {
        assert(!valid_path(path@)) by {
            let i = choose|i: int| 0 <= i < path@.len() && !('\0' <= #[trigger] path@[i] <= '\u{7f}');
            assert(!path_char(path@[i]));
        }
        return false;
    }
    let n = path.unicode_len();
    if n == 0 || path.get_ascii(0) != 47 {
        return false;
    }
    let mut i: usize = 0;
    while i < n
        invariant
            i <= n,
            n == path@.len(),
            is_ascii(path),
            forall|k: int| 0 <= k < i ==> path_char(#[trigger] path@[k]),
        decreases n - i,
    {
        let b = path.get_ascii(i);
        assert(path@[i as int] as u8 == b);
        assert(b as char == path@[i as int]);
        if !is_path_byte(b) {
            return false;
        }
        i += 1;
    }
    true
}

/// The route table. It is assembled once, route by route, and only read
/// after that.
#[derive(Debug)]
pub struct RouteTable {
    entries: Vec<RouteEntry>,
}

impl View for RouteTable {
    type V = Seq<RouteView>;

    closed spec fn view(&self) -> Seq<RouteView> {
        self.entries@.map_values(|e: RouteEntry| e@)
    }
}

impl RouteTable {
    #[verifier::type_invariant]
    spec fn sound(&self) -> bool {
        well_formed(self@)
    }

    /// A table without routes.
    pub fn new() -> (out: RouteTable)
        ensures
            out@ == Seq::<RouteView>::empty(),
    {
        let out = RouteTable { entries: Vec::new() };
        assert(out@ =~= Seq::<RouteView>::empty());
        out
    }

    /// The number of routes.
    pub fn len(&self) -> (out: usize)
        ensures
            out == self@.len(),
    {
        self.entries.len()
    }

    /// The handler that answers `method` and `path`, if a route of the table
    /// does. The table is well-formed, so at most one route does.
    pub fn resolve(&self, method: Method, path: &String) -> (out: Option<Handler>)
        ensures
            out == lookup(self@, method, path@),
            well_formed(self@),
    {
        proof {
            use_type_invariant(self);
        }
        let mut i: usize = 0;
        assert(self@.skip(0) =~= self@);
        while i < self.entries.len()
            invariant
                i <= self.entries.len(),
                well_formed(self@),
                lookup(self@, method, path@) == lookup(self@.skip(i as int), method, path@),
            decreases self.entries.len() - i,
        {
            let entry = &self.entries[i];
            assert(self@.skip(i as int)[0] == entry@);
            assert(self@.skip(i as int).drop_first() =~= self@.skip(i + 1));
            if entry.method == method && entry.path == *path {
                return Some(entry.handler);
            }
            i += 1;
        }
        None
    }

    /// Adds a route. A path that is not well-formed and a second route for
    /// the same method and path are refused, and the table stays as it was.
    pub fn register(&mut self, method: Method, path: &str, handler: Handler) -> (out: Result<
        (),
        RouteError,
    >)
        ensures
            well_formed(final(self)@),
            !valid_path(path@) ==> out == Err::<(), RouteError>(RouteError::InvalidPath),
            valid_path(path@) && lookup(old(self)@, method, path@) is Some ==> out == Err::<
                (),
                RouteError,
            >(RouteError::DuplicateRoute),
            valid_path(path@) && lookup(old(self)@, method, path@) is None ==> out == Ok::<
                (),
                RouteError,
            >(()),
            out is Err ==> final(self)@ == old(self)@,
            out is Ok ==> final(self)@ == old(self)@.push(
                RouteView { method, path: path@, handler },
            ),
    {
        proof {
            use_type_invariant(&*self);
        }
        if !is_valid_path(path) {
            return Err(RouteError::InvalidPath);
        }
        let owned = String::from_str(path);
        if self.resolve(method, &owned).is_some() {
            return Err(RouteError::DuplicateRoute);
        }
        proof {
            lemma_lookup_none(self@, method, path@);
        }
        let ghost before = self@;
        let mut entries: Vec<RouteEntry> = Vec::new();
        core::mem::swap(&mut self.entries, &mut entries);
        entries.push(RouteEntry { method, path: owned, handler });
        proof {
            let added = RouteView { method, path: path@, handler };
            let after = entries@.map_values(|e: RouteEntry| e@);
            assert(after =~= before.push(added));
            assert forall|i: int, j: int| 0 <= i < j < after.len() implies !answers(
                after[i],
                after[j].method,
                after[j].path,
            ) by {
                assert(after[i] == before[i]);
                if j < before.len() {
                    assert(after[j] == before[j]);
                }
            }
            assert forall|i: int| 0 <= i < after.len() implies valid_path(
                #[trigger] after[i].path,
            ) by {
                if i < before.len() {
                    assert(after[i] == before[i]);
                }
            }
        }
        self.entries = entries;
        Ok(())
    }
}

/// The route table of the service.
pub fn service_routes() -> (out: RouteTable)
    ensures
        out@ == service_table(),
{
    let mut table = RouteTable::new();
    proof {
        reveal_strlit("/");
        reveal_strlit("/products");
    }
    let greeting = table.register(Method::Get, "/", Handler::Greeting);
    assert(greeting is Ok);
    let products = table.register(Method::Get, "/products", Handler::Products);
    assert(products is Ok) by {
        assert("/"@.len() != "/products"@.len());
        reveal_with_fuel(lookup, 3);
    }
    assert(table@ =~= service_table());
    table
}

} // verus!
