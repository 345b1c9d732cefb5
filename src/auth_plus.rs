//! Access tokens, the credentials that obtain them, and the token request.

use vstd::prelude::*;

use crate::error::Error;
use crate::text::{
    is_white_space, join, joined, lemma_words_of_one_word, same_text, split_words, texts, words,
};

verus! {

/// Access token used to authenticate HTTP requests.
#[derive(Debug)]
pub struct AccessToken {
    pub access_token: String,
    pub scope: Option<String>,
}

/// The part of a scope entry after a leading `namespace.`, if it has one.
pub open spec fn namespace_entry(w: Seq<char>) -> Option<Seq<char>> {
    if "namespace."@.is_prefix_of(w) {
        Some(w.skip("namespace."@.len() as int))
    } else {
        None
    }
}

/// The namespaces that the space-separated `scope` names, in order.
pub open spec fn scope_namespaces(scope: Seq<char>) -> Seq<Seq<char>> {
    words(scope).filter_map(|w: Seq<char>| namespace_entry(w))
}

/// `x` between double quotes.
pub open spec fn quoted(x: Seq<char>) -> Seq<char> {
    "\""@ + x + "\""@
}

/// A bracketed, comma-separated list of the quoted `items`.
pub open spec fn listed(items: Seq<Seq<char>>) -> Seq<char> {
    "["@ + joined(items.map_values(|x: Seq<char>| quoted(x)), ", "@) + "]"@
}

/// The message of the error for a scope with several namespaces.
pub open spec fn many_namespaces_message(ns: Seq<Seq<char>>) -> Seq<char> {
    "multiple namespaces found: "@ + listed(ns)
}

/// A scope made of the single entry `namespace.X`, where `X` holds no white
/// space, names exactly the namespace `X`.
pub proof fn single_entry_names_its_namespace(x: Seq<char>)
    requires
        forall|i: int| 0 <= i < x.len() ==> !is_white_space(#[trigger] x[i]),
    ensures
        scope_namespaces("namespace."@ + x) == seq![x],
{
    reveal_strlit("namespace.");
    let p = "namespace."@;
    let s = p + x;
    assert forall|i: int| 0 <= i < s.len() implies !is_white_space(#[trigger] s[i]) by {
        if i >= p.len() {
            assert(s[i] == x[i - p.len()]);
        }
    };
    lemma_words_of_one_word(s);
    assert(s.subrange(0, p.len() as int) =~= p);
    assert(s.skip(p.len() as int) =~= x);
    assert(words(s) == seq![s]);
    assert(p.is_prefix_of(s));
    assert(namespace_entry(s) == Some(x));
    let ws = seq![s];
    assert(ws.drop_last() =~= Seq::<Seq<char>>::empty());
    assert(ws.last() == s);
    let f = |w: Seq<char>| namespace_entry(w);
    assert(ws.drop_last().filter_map(f) =~= Seq::<Seq<char>>::empty());
    assert(ws.filter_map(f) =~= seq![x]);
}

impl AccessToken {
    /// A copy of this token.
    pub fn duplicate(&self) -> (r: AccessToken)
        ensures
            r == *self,
    {
        AccessToken {
            access_token: self.access_token.clone(),
            scope: match &self.scope {
                Some(s) => Some(s.clone()),
                None => None,
            },
        }
    }

    /// The scope string, empty when there is none.
    pub open spec fn scope_text(&self) -> Seq<char> {
        match self.scope {
            Some(s) => s@,
            None => seq![],
        }
    }

    /// `r` is the namespace of this token: the one namespace its scope names,
    /// or an error where it names none or several.
    pub open spec fn namespace_is(&self, r: Result<String, Error>) -> bool {
        let ns = scope_namespaces(self.scope_text());
        match r {
            Ok(n) => ns.len() == 1 && n@ == ns[0],
            Err(e) => if ns.len() == 0 {
                e.is_token("namespace not found"@)
            } else {
                ns.len() > 1 && e.is_token(many_namespaces_message(ns))
            },
        }
    }

    /// The single namespace named by the token's scope.
    pub fn namespace(&self) -> (r: Result<String, Error>)
        ensures
            self.namespace_is(r),
    {
        let scope: &str = match &self.scope {
            Some(s) => s.as_str(),
            None => "",
        };
        proof {
            reveal_strlit("");
        }
        assert(scope@ == self.scope_text());
        let ws = split_words(scope);
        let mut found: Vec<String> = Vec::new();
        let mut j: usize = 0;
        while j < ws.len()
            invariant
                j <= ws.len(),
                texts(found@) == texts(ws@).take(j as int).filter_map(
                    |w: Seq<char>| namespace_entry(w),
                ),
            decreases ws.len() - j,
        {
            let ghost t = texts(ws@);
            assert(t.take(j + 1).drop_last() =~= t.take(j as int));
            assert(t.take(j + 1).last() == ws[j as int]@);
            match strip_namespace(ws[j].as_str()) {
                Some(n) => {
                    let ghost prior = found@;
                    found.push(n);
                    assert(texts(found@) =~= texts(prior) + seq![n@]);
                },
                None => {},
            }
            j += 1;
        }
        assert(texts(ws@).take(ws.len() as int) =~= texts(ws@));
        if found.len() == 1 {
            Ok(found[0].clone())
        } else if found.len() == 0 {
            Err(Error::Token("namespace not found".to_owned()))
        } else {
            let mut m = "multiple namespaces found: ".to_owned();
            let l = list_quoted(&found);
            m.append(l.as_str());
            Err(Error::Token(m))
        }
    }
}

/// OAuth2 client-credentials descriptor: token issuer, client id and secret.
#[derive(Debug)]
pub struct OAuth2 {
    pub server: String,
    pub client_id: String,
    pub client_secret: String,
}

impl OAuth2 {
    /// A copy of this descriptor.
    pub fn duplicate(&self) -> (r: OAuth2)
        ensures
            r == *self,
    {
        OAuth2 {
            server: self.server.clone(),
            client_id: self.client_id.clone(),
            client_secret: self.client_secret.clone(),
        }
    }
}

/// Location of the storage back end.
#[derive(Debug)]
pub struct Ostree {
    pub server: String,
}

/// Credentials read from the credentials archive.
#[derive(Debug)]
pub struct Credentials {
    pub no_auth: Option<bool>,
    pub oauth2: Option<OAuth2>,
    pub ostree: Ostree,
}

/// The message of the error for credentials with no authentication method.
pub open spec fn no_auth_method_message() -> Seq<char> {
    "no parseable auth method from credentials.zip"@
}

impl Credentials {
    /// How to authenticate: `Some(None)` for no authentication, `Some(Some(o))`
    /// for the OAuth2 client-credentials grant with `o`, `None` where neither is set.
    pub open spec fn auth_method(&self) -> Option<Option<OAuth2>> {
        if self.no_auth == Some(true) {
            Some(None)
        } else if self.oauth2 is Some {
            Some(self.oauth2)
        } else {
            None
        }
    }

    /// The OAuth2 descriptor to request a token with, or none where
    /// authentication is switched off.
    pub fn oauth2(&self) -> (r: Result<Option<OAuth2>, Error>)
        ensures
            match self.auth_method() {
                Some(m) => r == Ok::<Option<OAuth2>, Error>(m),
                None => r matches Err(e) && e.is_auth(no_auth_method_message()),
            },
    {
        if let Some(true) = self.no_auth {
            Ok(None)
        } else if let Some(oauth2) = &self.oauth2 {
            Ok(Some(oauth2.duplicate()))
        } else {
            Err(Error::Auth("no parseable auth method from credentials.zip".to_owned()))
        }
    }
}

/// A client-credentials grant request: posted to `url` with HTTP Basic
/// authentication and the form field `grant_type`.
#[derive(Debug)]
pub struct TokenRequest {
    pub url: String,
    pub client_id: String,
    pub client_secret: String,
    pub grant_type: String,
}

impl TokenRequest {
    /// This is the token request for the descriptor `o`.
    pub open spec fn is_for(&self, o: OAuth2) -> bool {
        &&& self.url@ == o.server@ + "/token"@
        &&& self.client_id == o.client_id
        &&& self.client_secret == o.client_secret
        &&& self.grant_type@ == "client_credentials"@
    }
}

/// The token issuer.
pub struct AuthPlus;

impl AuthPlus {
    /// The request that exchanges the client credentials of `oauth2` for a token.
    pub fn token_request(oauth2: &OAuth2) -> (r: TokenRequest)
        ensures
            r.is_for(*oauth2),
    {
        let mut url = oauth2.server.clone();
        url.append("/token");
        TokenRequest {
            url,
            client_id: oauth2.client_id.clone(),
            client_secret: oauth2.client_secret.clone(),
            grant_type: "client_credentials".to_owned(),
        }
    }
}

/// The remainder of `w` after a leading `namespace.`.
fn strip_namespace(w: &str) -> (r: Option<String>)
    ensures
        match r {
            Some(x) => namespace_entry(w@) == Some(x@),
            None => namespace_entry(w@) is None,
        },
{
    let prefix = "namespace.";
    proof {
        reveal_strlit("namespace.");
    }
    let n = w.unicode_len();
    if n >= 10 && same_text(w.substring_char(0, 10), prefix) {
        assert(prefix@.is_prefix_of(w@));
        Some(w.substring_char(10, n).to_owned())
    } else {
        assert(!prefix@.is_prefix_of(w@)) by {
            if prefix@.is_prefix_of(w@) {
                assert(w@.subrange(0, 10) =~= prefix@);
            }
        };
        None
    }
}

/// Writes `items` as a bracketed, comma-separated list of quoted strings.
fn list_quoted(items: &Vec<String>) -> (r: String)
    ensures
        r@ == listed(texts(items@)),
{
    let mut quoted_items: Vec<String> = Vec::new();
    let mut i: usize = 0;
    while i < items.len()
        invariant
            i <= items.len(),
            texts(quoted_items@) == texts(items@).take(i as int).map_values(
                |x: Seq<char>| quoted(x),
            ),
        decreases items.len() - i,
    {
        let mut q = "\"".to_owned();
        q.append(items[i].as_str());
        q.append("\"");
        let ghost prior = quoted_items@;
        quoted_items.push(q);
        assert(texts(quoted_items@) =~= texts(prior).push(q@));
        assert(texts(items@).take(i + 1) =~= texts(items@).take(i as int).push(items[i as int]@));
        i += 1;
    }
    assert(texts(items@).take(items.len() as int) =~= texts(items@));
    let mut r = "[".to_owned();
    let body = join(&quoted_items, ", ");
    r.append(body.as_str());
    r.append("]");
    r
}

} // verus!
