//! The transport-level request that a builder is turned into.
use crate::headers::AUTHORIZATION;
use crate::headers::AZURE_VERSION;
use crate::headers::HEADER_DATE;
use crate::headers::HEADER_VERSION;
use crate::text::str_eq;
use vstd::prelude::*;

verus! {

/// The verb of a request.
#[derive(Debug, Clone, Copy, PartialEq, Eq, Structural)]
pub enum Method {
    Get,
    Post,
    Put,
    Delete,
}

impl Method {
    /// The verb as it is written on the wire.
    pub open spec fn name(self) -> Seq<char> {
        match self {
            Method::Get => "GET"@,
            Method::Post => "POST"@,
            Method::Put => "PUT"@,
            Method::Delete => "DELETE"@,
        }
    }

    /// The verb as it is written on the wire.
    pub fn as_str(&self) -> (name: &'static str)
        ensures
            name@ == self.name(),
    {
        match self {
            Method::Get => "GET",
            Method::Post => "POST",
            Method::Put => "PUT",
            Method::Delete => "DELETE",
        }
    }
}

/// The kind of resource a request addresses. The service signs it into the
/// authorization of the request.
#[derive(Debug, Clone, Copy, PartialEq, Eq, Structural)]
pub enum ResourceType {
    Databases,
    Collections,
    Documents,
    StoredProcedures,
    Users,
    Permissions,
    Attachments,
    PartitionKeyRanges,
    UserDefinedFunctions,
    Triggers,
}

impl ResourceType {
    /// The path segment under which resources of this kind are listed.
    pub open spec fn segment(self) -> Seq<char> {
        match self {
            ResourceType::Databases => "dbs"@,
            ResourceType::Collections => "colls"@,
            ResourceType::Documents => "docs"@,
            ResourceType::StoredProcedures => "sprocs"@,
            ResourceType::Users => "users"@,
            ResourceType::Permissions => "permissions"@,
            ResourceType::Attachments => "attachments"@,
            ResourceType::PartitionKeyRanges => "pkranges"@,
            ResourceType::UserDefinedFunctions => "udfs"@,
            ResourceType::Triggers => "triggers"@,
        }
    }

    /// The path segment under which resources of this kind are listed.
    pub fn as_str(&self) -> (segment: &'static str)
        ensures
            segment@ == self.segment(),
    {
        match self {
            ResourceType::Databases => "dbs",
            ResourceType::Collections => "colls",
            ResourceType::Documents => "docs",
            ResourceType::StoredProcedures => "sprocs",
            ResourceType::Users => "users",
            ResourceType::Permissions => "permissions",
            ResourceType::Attachments => "attachments",
            ResourceType::PartitionKeyRanges => "pkranges",
            ResourceType::UserDefinedFunctions => "udfs",
            ResourceType::Triggers => "triggers",
        }
    }
}

/// One header line: a name and its value.
#[derive(Debug)]
pub struct Header {
    pub name: String,
    pub value: String,
}

impl View for Header {
    type V = (Seq<char>, Seq<char>);

    open spec fn view(&self) -> (Seq<char>, Seq<char>) {
        (self.name@, self.value@)
    }
}

impl Header {
    /// A header line with the given name and value.
    pub fn new(name: &str, value: &str) -> (header: Header)
        ensures
            header@ == (name@, value@),
    {
        Header { name: String::from_str(name), value: String::from_str(value) }
    }
}

impl Clone for Header {
    fn clone(&self) -> (copy: Header)
        ensures
            copy@ == self@,
    {
        Header { name: self.name.clone(), value: self.value.clone() }
    }
}

/// The header lines of `headers`, each as a pair of name and value.
pub open spec fn header_lines(headers: Seq<Header>) -> Seq<(Seq<char>, Seq<char>)> {
    Seq::new(headers.len(), |i: int| headers[i]@)
}

/// The value of the first line of `lines` that is named `name`.
pub open spec fn first_value(lines: Seq<(Seq<char>, Seq<char>)>, name: Seq<char>) -> Option<
    Seq<char>,
>
    decreases lines.len(),
{
    if lines.len() == 0 {
        None
    } else if lines[0].0 == name {
        Some(lines[0].1)
    } else {
        first_value(lines.drop_first(), name)
    }
}

/// Looks up the value of the first header named `name`. Names are compared
/// as they are written: the transport hands them over in lower case, which
/// is how the names in `headers` are spelled.
pub fn find_header<'a>(headers: &'a Vec<Header>, name: &str) -> (value: Option<&'a str>)
    ensures
        match first_value(header_lines(headers@), name@) {
            Some(v) => value matches Some(found) && found@ == v,
            None => value is None,
        },
{
    let mut i: usize = 0;
    assert(header_lines(headers@).skip(0) =~= header_lines(headers@));
    while i < headers.len()
        invariant
            i <= headers.len(),
            first_value(header_lines(headers@), name@) == first_value(
                header_lines(headers@).skip(i as int),
                name@,
            ),
        decreases headers.len() - i,
    {
        let ghost rest = header_lines(headers@).skip(i as int);
        assert(rest[0] == headers@[i as int]@);
        if str_eq(headers[i].name.as_str(), name) {
            return Some(headers[i].value.as_str());
        }
        assert(rest.drop_first() =~= header_lines(headers@).skip(i + 1));
        i += 1;
    }
    assert(header_lines(headers@).skip(i as int).len() == 0);
    None
}

/// What a request says, as mathematical values.
pub struct RequestView {
    pub method: Method,
    pub resource_type: ResourceType,
    pub base_uri: Seq<char>,
    pub path: Seq<char>,
    pub headers: Seq<(Seq<char>, Seq<char>)>,
    pub body: Option<Seq<char>>,
}

impl RequestView {
    /// The request without headers or body that addresses `path` below
    /// `base_uri`.
    pub open spec fn bare(
        base_uri: Seq<char>,
        path: Seq<char>,
        method: Method,
        resource_type: ResourceType,
    ) -> RequestView {
        RequestView { method, resource_type, base_uri, path, headers: Seq::empty(), body: None }
    }

    /// The address of the request: the path below the base.
    pub open spec fn uri(self) -> Seq<char> {
        self.base_uri + "/"@ + self.path
    }

    /// This request with one more header line at the end.
    pub open spec fn with_header(self, name: Seq<char>, value: Seq<char>) -> RequestView {
        RequestView { headers: self.headers.push((name, value)), ..self }
    }

    /// This request with one more header line if there is a value for it.
    pub open spec fn with_optional_header(
        self,
        name: Seq<char>,
        value: Option<Seq<char>>,
    ) -> RequestView {
        match value {
            Some(v) => self.with_header(name, v),
            None => self,
        }
    }

    /// This request with `body` as its payload.
    pub open spec fn with_body(self, body: Seq<char>) -> RequestView {
        RequestView { body: Some(body), ..self }
    }

    /// The value of the first header named `name`.
    pub open spec fn header(self, name: Seq<char>) -> Option<Seq<char>> {
        first_value(self.headers, name)
    }

    /// The link that is signed into the authorization of the request: the
    /// path of the resource itself, or, where the path ends in the segment of
    /// its resource type and so addresses all resources of that kind, the
    /// path of the resource that owns them.
    pub open spec fn resource_link(self) -> Seq<char> {
        let segment = self.resource_type.segment();
        let cut = self.path.len() - segment.len() - 1;
        if self.path == segment {
            Seq::empty()
        } else if cut >= 0 && self.path.subrange(cut, self.path.len() as int) == "/"@ + segment {
            self.path.subrange(0, cut)
        } else {
            self.path
        }
    }

    /// This request with the three headers that every request to the service
    /// carries: its date, the version of the interface and the authorization.
    pub open spec fn authorized(self, date: Seq<char>, authorization: Seq<char>) -> RequestView {
        self.with_header(HEADER_DATE@, date).with_header(
            HEADER_VERSION@,
            AZURE_VERSION@,
        ).with_header(AUTHORIZATION@, authorization)
    }
}

/// A request ready for the transport: verb, address, headers and payload.
#[derive(Debug)]
pub struct Request {
    method: Method,
    resource_type: ResourceType,
    base_uri: String,
    path: String,
    headers: Vec<Header>,
    body: Option<String>,
}

impl View for Request {
    type V = RequestView;

    closed spec fn view(&self) -> RequestView {
        RequestView {
            method: self.method,
            resource_type: self.resource_type,
            base_uri: self.base_uri@,
            path: self.path@,
            headers: header_lines(self.headers@),
            body: match self.body {
                Some(b) => Some(b@),
                None => None,
            },
        }
    }
}

impl Request {
    /// A request without headers or body that addresses `path` below
    /// `base_uri`.
    pub fn new(base_uri: &str, path: &str, method: Method, resource_type: ResourceType) -> (request:
        Request)
        ensures
            request@ == RequestView::bare(base_uri@, path@, method, resource_type),
    {
        let request = Request {
            method,
            resource_type,
            base_uri: String::from_str(base_uri),
            path: String::from_str(path),
            headers: Vec::new(),
            body: None,
        };
        assert(request@.headers =~= Seq::empty());
        request
    }

    /// Appends a header line.
    pub fn header(self, name: &str, value: &str) -> (request: Request)
        ensures
            request@ == self@.with_header(name@, value@),
    {
        let mut request = self;
        request.headers.push(Header::new(name, value));
        assert(request@.headers =~= self@.headers.push((name@, value@)));
        request
    }

    /// Sets the payload, replacing an earlier one.
    pub fn body(self, body: &str) -> (request: Request)
        ensures
            request@ == self@.with_body(body@),
    {
        let mut request = self;
        request.body = Some(String::from_str(body));
        request
    }

    /// The verb.
    pub fn method(&self) -> (method: Method)
        ensures
            method == self@.method,
    {
        self.method
    }

    /// The kind of resource addressed.
    pub fn resource_type(&self) -> (resource_type: ResourceType)
        ensures
            resource_type == self@.resource_type,
    {
        self.resource_type
    }

    /// The address of the service.
    pub fn base_uri(&self) -> (base_uri: &str)
        ensures
            base_uri@ == self@.base_uri,
    {
        self.base_uri.as_str()
    }

    /// The path of the addressed resource below the base address.
    pub fn path(&self) -> (path: &str)
        ensures
            path@ == self@.path,
    {
        self.path.as_str()
    }

    /// The full address: the base, a slash and the path.
    pub fn uri(&self) -> (uri: String)
        ensures
            uri@ == self@.uri(),
    {
        let mut uri = self.base_uri.clone();
        uri.append("/");
        uri.append(self.path.as_str());
        uri
    }

    /// The link that is signed into the authorization of the request.
    pub fn resource_link(&self) -> (link: String)
        ensures
            link@ == self@.resource_link(),
    {
        let path = self.path.as_str();
        let segment = self.resource_type.as_str();
        let n = path.unicode_len();
        let k = segment.unicode_len();
        if n == k {
            if str_eq(path, segment) {
                return String::new();
            }
        } else if n > k {
            let cut = n - k - 1;
            let tail = path.substring_char(cut, n);
            let mut ending = String::from_str("/");
            ending.append(segment);
            if str_eq(tail, ending.as_str()) {
                return String::from_str(path.substring_char(0, cut));
            }
        }
        String::from_str(path)
    }

    /// Adds the date of the request, the version of the interface and the
    /// authorization, which the signer made from the verb, the resource type,
    /// the resource link and that date.
    pub fn authorized(self, date: &str, authorization: &str) -> (request: Request)
        ensures
            request@ == self@.authorized(date@, authorization@),
    {
        self.header(HEADER_DATE, date).header(HEADER_VERSION, AZURE_VERSION).header(
            AUTHORIZATION,
            authorization,
        )
    }

    /// The header lines, in the order in which they were added.
    pub fn headers(&self) -> (headers: &Vec<Header>)
        ensures
            header_lines(headers@) == self@.headers,
    {
        &self.headers
    }

    /// The value of the first header named `name`.
    pub fn header_value(&self, name: &str) -> (value: Option<&str>)
        ensures
            match self@.header(name@) {
                Some(v) => value matches Some(found) && found@ == v,
                None => value is None,
            },
    {
        find_header(&self.headers, name)
    }

    /// The payload, if the request carries one.
    pub fn payload(&self) -> (body: Option<&str>)
        ensures
            match self@.body {
                Some(b) => body matches Some(found) && found@ == b,
                None => body is None,
            },
    {
        match &self.body {
            Some(b) => Some(b.as_str()),
            None => None,
        }
    }
}

} // verus!
