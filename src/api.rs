use vstd::prelude::*;

use crate::model::{EmailOrPhone, UserAttributes};
use crate::wire::{
    header_name_ok, header_value_ok, is_valid_header_value, json_object, json_opt_bool, json_opt_bool_text,
    json_string, json_string_of, object_text, pairs_view,
};

verus! {

#[derive(Debug, Clone, Copy, PartialEq, Eq, Structural)]
pub enum Method {
    Get,
    Post,
    Put,
    Delete,
}

/// One HTTP request, ready to be sent: headers in the order in which they are
/// set (a later one of a name replaces an earlier one), and a JSON body.
pub struct Request {
    pub method: Method,
    pub url: String,
    pub headers: Vec<(String, String)>,
    pub body: Option<String>,
}

pub ghost struct RequestView {
    pub method: Method,
    pub url: Seq<char>,
    pub headers: Seq<(Seq<char>, Seq<char>)>,
    pub body: Option<Seq<char>>,
}

pub open spec fn opt_view(o: Option<String>) -> Option<Seq<char>> {
    match o {
        Some(s) => Some(s@),
        None => None,
    }
}

impl View for Request {
    type V = RequestView;

    open spec fn view(&self) -> RequestView {
        RequestView {
            method: self.method,
            url: self.url@,
            headers: pairs_view(self.headers@),
            body: opt_view(self.body),
        }
    }
}

/// Every header name and value can be sent.
pub open spec fn headers_ok(h: Seq<(Seq<char>, Seq<char>)>) -> bool {
    forall|i: int| 0 <= i < h.len() ==> header_name_ok(#[trigger] h[i].0) && header_value_ok(h[i].1)
}

/// Whether a bearer header can be sent for `token`.
pub open spec fn bearer_ok(token: Seq<char>) -> bool {
    header_value_ok(bearer_header(token).1)
}

/// The header that carries a bearer token.
pub open spec fn bearer_header(token: Seq<char>) -> (Seq<char>, Seq<char>) {
    ("Authorization"@, "Bearer "@ + token)
}

/// The member that names the account.
pub open spec fn selector_member(who: EmailOrPhone) -> (Seq<char>, Seq<char>) {
    match who {
        EmailOrPhone::Email(e) => ("email"@, json_string_of(e@)),
        EmailOrPhone::Phone(p) => ("phone"@, json_string_of(p@)),
    }
}

/// The body that sign-up and sign-in send.
pub open spec fn credentials_text(who: EmailOrPhone, password: Seq<char>) -> Seq<char> {
    object_text(seq![selector_member(who), ("password"@, json_string_of(password))])
}

pub open spec fn otp_text(who: EmailOrPhone, should_create_user: Option<bool>) -> Seq<char> {
    object_text(
        seq![selector_member(who), ("should_create_user"@, json_opt_bool_text(should_create_user))],
    )
}

pub open spec fn email_text(email: Seq<char>) -> Seq<char> {
    object_text(seq![("email"@, json_string_of(email))])
}

pub open spec fn refresh_text(refresh_token: Seq<char>) -> Seq<char> {
    object_text(seq![("refresh_token"@, json_string_of(refresh_token))])
}

pub open spec fn attributes_text(user: UserAttributes) -> Seq<char> {
    object_text(
        seq![
            ("email"@, json_string_of(user.email@)),
            ("password"@, json_string_of(user.password@)),
            ("data"@, user.data@),
        ],
    )
}

/// The requests of the service found at a base URL, each sent with a set of
/// static headers.
pub struct Api {
    pub url: String,
    pub headers: Vec<(String, String)>,
}

fn copy_pairs(v: &Vec<(String, String)>) -> (r: Vec<(String, String)>)
    ensures
        r@ == v@,
{
    let mut r: Vec<(String, String)> = Vec::new();
    let mut i: usize = 0;
    while i < v.len()
        invariant
            i <= v@.len(),
            r@ == v@.take(i as int),
        decreases v@.len() - i,
    {
        let p = (v[i].0.clone(), v[i].1.clone());
        r.push(p);
        proof {
            assert(v@.take(i as int + 1) =~= v@.take(i as int).push(v@[i as int]));
        }
        i = i + 1;
    }
    proof {
        assert(v@.take(v@.len() as int) =~= v@);
    }
    r
}

fn owned(s: &str) -> (r: String)
    ensures
        r@ == s@,
{
    String::from_str(s)
}

fn pair(k: &str, v: String) -> (r: (String, String))
    ensures
        r.0@ == k@,
        r.1 == v,
{
    (String::from_str(k), v)
}

fn selector_pair(who: EmailOrPhone) -> (r: (String, String))
    ensures
        (r.0@, r.1@) == selector_member(who),
{
    match who {
        EmailOrPhone::Email(e) => pair("email", json_string(e.as_str())),
        EmailOrPhone::Phone(p) => pair("phone", json_string(p.as_str())),
    }
}

impl Api {
    pub open spec fn wf(&self) -> bool {
        headers_ok(pairs_view(self.headers@))
    }

    /// A request with the static headers alone.
    pub open spec fn plain(&self, method: Method, path: Seq<char>, body: Option<Seq<char>>) -> RequestView {
        RequestView { method, url: self.url@ + path, headers: pairs_view(self.headers@), body }
    }

    /// A request with the static headers and then a bearer token.
    pub open spec fn bearing(
        &self,
        method: Method,
        path: Seq<char>,
        token: Seq<char>,
        body: Option<Seq<char>>,
    ) -> RequestView {
        RequestView {
            method,
            url: self.url@ + path,
            headers: pairs_view(self.headers@).push(bearer_header(token)),
            body,
        }
    }

    /// An API at the base URL `url`, with no static headers.
    pub fn new(url: String) -> (r: Api)
        ensures
            r.url == url,
            r.headers@.len() == 0,
            r.wf(),
    {
        Api { url, headers: Vec::new() }
    }

    /// Adds a header that every request carries.
    pub fn insert_header(self, header_name: &str, header_value: &str) -> (r: Api)
        requires
            self.wf(),
            header_name_ok(header_name@),
            header_value_ok(header_value@),
        ensures
            r.url == self.url,
            pairs_view(r.headers@) == pairs_view(self.headers@).push((header_name@, header_value@)),
            r.wf(),
    {
        let mut s = self;
        let ghost before = s.headers@;
        s.headers.push((owned(header_name), owned(header_value)));
        proof {
            assert(pairs_view(s.headers@) =~= pairs_view(before).push((header_name@, header_value@)));
        }
        s
    }

    fn request(&self, method: Method, path: &str, body: Option<String>) -> (r: Request)
        requires
            self.wf(),
        ensures
            r@ == self.plain(method, path@, opt_view(body)),
            headers_ok(r@.headers),
    {
        let mut url = self.url.clone();
        url.append(path);
        Request { method, url, headers: copy_pairs(&self.headers), body }
    }

    fn authorized(&self, method: Method, path: &str, token: &str, body: Option<String>) -> (r: Option<Request>)
        requires
            self.wf(),
        ensures
            match r {
                Some(req) => bearer_ok(token@) && req@ == self.bearing(method, path@, token@, opt_view(body))
                    && headers_ok(req@.headers),
                None => !bearer_ok(token@),
            },
    {
        let mut value = owned("Bearer ");
        value.append(token);
        proof {
            reveal_strlit("Bearer ");
            reveal_strlit("Authorization");
            let v = "Bearer "@ + token@;
            if !header_value_ok(token@) {
                let j = choose|j: int| 0 <= j < token@.len() && !crate::wire::header_char_ok(#[trigger] token@[j]);
                assert(v[j + 7] == token@[j]);
            }
        }
        if !is_valid_header_value(token) {
            return None;
        }
        let mut url = self.url.clone();
        url.append(path);
        let mut headers = copy_pairs(&self.headers);
        headers.push(pair("Authorization", value));
        proof {
            assert(pairs_view(headers@) =~= pairs_view(self.headers@).push(bearer_header(token@)));
            let h = pairs_view(headers@);
            let v = "Bearer "@ + token@;
            assert forall|j: int| 0 <= j < v.len() implies #[trigger] crate::wire::header_char_ok(v[j]) by {
                if j >= 7 {
                    assert(v[j] == token@[j - 7]);
                }
            }
            let a = "Authorization"@;
            assert(header_name_ok(a)) by {
                assert forall|j: int| 0 <= j < a.len() implies #[trigger] crate::wire::header_name_char_ok(a[j]) by {}
            }
            assert forall|i: int| 0 <= i < h.len() implies header_name_ok(#[trigger] h[i].0) && header_value_ok(h[i].1) by {
                if i < h.len() - 1 {
                    assert(h[i] == pairs_view(self.headers@)[i]);
                }
            }
        }
        Some(Request { method, url, headers, body })
    }

    /// Creates an account: POST `/signup` with the identifier and the password.
    pub fn sign_up(&self, email_or_phone: EmailOrPhone, password: &String) -> (r: Request)
        requires
            self.wf(),
        ensures
            r@ == self.plain(Method::Post, "/signup"@, Some(credentials_text(email_or_phone, password@))),
            headers_ok(r@.headers),
    {
        let ghost who = email_or_phone;
        let mut members: Vec<(String, String)> = Vec::new();
        members.push(selector_pair(email_or_phone));
        members.push(pair("password", json_string(password.as_str())));
        proof {
            assert(pairs_view(members@) =~= seq![selector_member(who), ("password"@, json_string_of(password@))]);
        }
        let body = json_object(&members);
        self.request(Method::Post, "/signup", Some(body))
    }

    /// Signs in with a password: POST `/token?grant_type=password`.
    pub fn sign_in(&self, email_or_phone: EmailOrPhone, password: &String) -> (r: Request)
        requires
            self.wf(),
        ensures
            r@ == self.plain(
                Method::Post,
                "/token?grant_type=password"@,
                Some(credentials_text(email_or_phone, password@)),
            ),
            headers_ok(r@.headers),
    {
        let ghost who = email_or_phone;
        let mut members: Vec<(String, String)> = Vec::new();
        members.push(selector_pair(email_or_phone));
        members.push(pair("password", json_string(password.as_str())));
        proof {
            assert(pairs_view(members@) =~= seq![selector_member(who), ("password"@, json_string_of(password@))]);
        }
        let body = json_object(&members);
        self.request(Method::Post, "/token?grant_type=password", Some(body))
    }

    /// Asks for a one-time passcode: POST `/otp`.
    pub fn send_otp(&self, email_or_phone: EmailOrPhone, should_create_user: Option<bool>) -> (r: Request)
        requires
            self.wf(),
        ensures
            r@ == self.plain(Method::Post, "/otp"@, Some(otp_text(email_or_phone, should_create_user))),
            headers_ok(r@.headers),
    {
        let ghost who = email_or_phone;
        let mut members: Vec<(String, String)> = Vec::new();
        members.push(selector_pair(email_or_phone));
        members.push(pair("should_create_user", json_opt_bool(should_create_user)));
        proof {
            assert(pairs_view(members@) =~= seq![
                selector_member(who),
                ("should_create_user"@, json_opt_bool_text(should_create_user)),
            ]);
        }
        let body = json_object(&members);
        self.request(Method::Post, "/otp", Some(body))
    }

    /// Verifies a one-time passcode: POST `/verify` with `params`, JSON text
    /// that is sent as it stands.
    pub fn verify_otp(&self, params: String) -> (r: Request)
        requires
            self.wf(),
        ensures
            r@ == self.plain(Method::Post, "/verify"@, Some(params@)),
            headers_ok(r@.headers),
    {
        self.request(Method::Post, "/verify", Some(params))
    }

    /// Ends the session of `access_token`: POST `/logout` with it as bearer.
    /// `None` where the token cannot be sent as a bearer header.
    pub fn sign_out(&self, access_token: &String) -> (r: Option<Request>)
        requires
            self.wf(),
        ensures
            match r {
                Some(req) => bearer_ok(access_token@)
                    && req@ == self.bearing(Method::Post, "/logout"@, access_token@, None)
                    && headers_ok(req@.headers),
                None => !bearer_ok(access_token@),
            },
    {
        self.authorized(Method::Post, "/logout", access_token.as_str(), None)
    }

    fn email_body(email: &str) -> (r: String)
        ensures
            r@ == email_text(email@),
    {
        let mut members: Vec<(String, String)> = Vec::new();
        members.push(pair("email", json_string(email)));
        proof {
            assert(pairs_view(members@) =~= seq![("email"@, json_string_of(email@))]);
        }
        json_object(&members)
    }

    /// Sends a password recovery email: POST `/recover`.
    pub fn reset_password_for_email(&self, email: &str) -> (r: Request)
        requires
            self.wf(),
        ensures
            r@ == self.plain(Method::Post, "/recover"@, Some(email_text(email@))),
            headers_ok(r@.headers),
    {
        let body = Self::email_body(email);
        self.request(Method::Post, "/recover", Some(body))
    }

    /// The address at which a user signs in through `provider`.
    pub fn get_url_for_provider(&self, provider: &str) -> (r: String)
        ensures
            r@ == self.url@ + "/authorize?provider="@ + provider@,
    {
        let mut url = self.url.clone();
        url.append("/authorize?provider=");
        url.append(provider);
        url
    }

    /// Mints a new session: POST `/token?grant_type=refresh_token`.
    pub fn refresh_access_token(&self, refresh_token: &str) -> (r: Request)
        requires
            self.wf(),
        ensures
            r@ == self.plain(
                Method::Post,
                "/token?grant_type=refresh_token"@,
                Some(refresh_text(refresh_token@)),
            ),
            headers_ok(r@.headers),
    {
        let mut members: Vec<(String, String)> = Vec::new();
        members.push(pair("refresh_token", json_string(refresh_token)));
        proof {
            assert(pairs_view(members@) =~= seq![("refresh_token"@, json_string_of(refresh_token@))]);
        }
        let body = json_object(&members);
        self.request(Method::Post, "/token?grant_type=refresh_token", Some(body))
    }

    /// Fetches the user of a token: GET `/user` with it as bearer.
    /// `None` where the token cannot be sent as a bearer header.
    pub fn get_user(&self, jwt: &str) -> (r: Option<Request>)
        requires
            self.wf(),
        ensures
            match r {
                Some(req) => bearer_ok(jwt@) && req@ == self.bearing(Method::Get, "/user"@, jwt@, None)
                    && headers_ok(req@.headers),
                None => !bearer_ok(jwt@),
            },
    {
        self.authorized(Method::Get, "/user", jwt, None)
    }

    /// Changes the user of a token: PUT `/user` with it as bearer.
    /// `None` where the token cannot be sent as a bearer header.
    pub fn update_user(&self, user: UserAttributes, jwt: &str) -> (r: Option<Request>)
        requires
            self.wf(),
        ensures
            match r {
                Some(req) => bearer_ok(jwt@)
                    && req@ == self.bearing(Method::Put, "/user"@, jwt@, Some(attributes_text(user)))
                    && headers_ok(req@.headers),
                None => !bearer_ok(jwt@),
            },
    {
        let ghost u = user;
        let mut members: Vec<(String, String)> = Vec::new();
        members.push(pair("email", json_string(user.email.as_str())));
        members.push(pair("password", json_string(user.password.as_str())));
        members.push(pair("data", user.data));
        proof {
            assert(pairs_view(members@) =~= seq![
                ("email"@, json_string_of(u.email@)),
                ("password"@, json_string_of(u.password@)),
                ("data"@, u.data@),
            ]);
        }
        let body = json_object(&members);
        self.authorized(Method::Put, "/user", jwt, Some(body))
    }

    /// Invites a user by email: POST `/invite`.
    pub fn invite_user_by_email(&self, email: &str) -> (r: Request)
        requires
            self.wf(),
        ensures
            r@ == self.plain(Method::Post, "/invite"@, Some(email_text(email@))),
            headers_ok(r@.headers),
    {
        let body = Self::email_body(email);
        self.request(Method::Post, "/invite", Some(body))
    }

    /// Lists users: GET `/admin/users`, followed by `query_string` as it stands
    /// where there is one.
    pub fn list_users(&self, query_string: Option<String>) -> (r: Request)
        requires
            self.wf(),
        ensures
            r@ == self.plain(
                Method::Get,
                match query_string {
                    Some(q) => "/admin/users"@ + q@,
                    None => "/admin/users"@,
                },
                None,
            ),
            headers_ok(r@.headers),
    {
        let mut path = owned("/admin/users");
        match query_string {
            Some(q) => path.append(q.as_str()),
            None => {},
        }
        self.request(Method::Get, path.as_str(), None)
    }

    fn user_path(user_id: &str) -> (r: String)
        ensures
            r@ == "/admin/users/"@ + user_id@,
    {
        let mut path = owned("/admin/users/");
        path.append(user_id);
        path
    }

    /// Fetches a user: GET `/admin/users/{user_id}`.
    pub fn get_user_by_id(&self, user_id: &str) -> (r: Request)
        requires
            self.wf(),
        ensures
            r@ == self.plain(Method::Get, "/admin/users/"@ + user_id@, None),
            headers_ok(r@.headers),
    {
        let path = Self::user_path(user_id);
        self.request(Method::Get, path.as_str(), None)
    }

    /// Creates a user: POST `/admin/users` with `user`, JSON text that is sent
    /// as it stands.
    pub fn create_user(&self, user: String) -> (r: Request)
        requires
            self.wf(),
        ensures
            r@ == self.plain(Method::Post, "/admin/users"@, Some(user@)),
            headers_ok(r@.headers),
    {
        self.request(Method::Post, "/admin/users", Some(user))
    }

    /// Changes a user: PUT `/admin/users/{id}` with `user`, JSON text that is
    /// sent as it stands.
    pub fn update_user_by_id(&self, id: &str, user: String) -> (r: Request)
        requires
            self.wf(),
        ensures
            r@ == self.plain(Method::Put, "/admin/users/"@ + id@, Some(user@)),
            headers_ok(r@.headers),
    {
        let path = Self::user_path(id);
        self.request(Method::Put, path.as_str(), Some(user))
    }

    /// Deletes a user: DELETE `/admin/users/{user_id}`.
    pub fn delete_user(&self, user_id: &str) -> (r: Request)
        requires
            self.wf(),
        ensures
            r@ == self.plain(Method::Delete, "/admin/users/"@ + user_id@, None),
            headers_ok(r@.headers),
    {
        let path = Self::user_path(user_id);
        self.request(Method::Delete, path.as_str(), None)
    }
}

} // verus!
