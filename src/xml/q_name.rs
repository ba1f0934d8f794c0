use vstd::prelude::*;

verus! {

/// The view of an optional string.
pub open spec fn opt_view(o: Option<String>) -> Option<Seq<char>> {
    match o {
        Some(s) => Some(s@),
        None => None,
    }
}

/// Clones an optional string.
pub fn clone_opt(o: &Option<String>) -> (r: Option<String>)
    ensures
        opt_view(r) == opt_view(*o),
{
    match o {
        Some(s) => Some(s.clone()),
        None => None,
    }
}

/// The mathematical value of a qualified name.
pub struct QNameView {
    pub namespace_uri: Option<Seq<char>>,
    pub local_name: Seq<char>,
    pub prefix: Option<Seq<char>>,
}

/// Identifies an element by local name, optional namespace URI and optional prefix.
#[derive(Debug, Default)]
pub struct QName {
    pub namespace_uri: Option<String>,
    pub local_name: String,
    pub prefix: Option<String>,
}

impl View for QName {
    type V = QNameView;

    open spec fn view(&self) -> QNameView {
        QNameView {
            namespace_uri: opt_view(self.namespace_uri),
            local_name: self.local_name@,
            prefix: opt_view(self.prefix),
        }
    }
}

impl QName {
    pub fn new(namespace_uri: Option<String>, local_name: String, prefix: Option<String>) -> (r: QName)
        ensures
            r@ == (QNameView {
                namespace_uri: opt_view(namespace_uri),
                local_name: local_name@,
                prefix: opt_view(prefix),
            }),
    {
        QName { namespace_uri, local_name, prefix }
    }

    pub fn namespace_uri(&self) -> (r: Option<&str>)
        ensures
            r is Some <==> self@.namespace_uri is Some,
            r is Some ==> r->0@ == self@.namespace_uri->0,
    {
        match &self.namespace_uri {
            Some(s) => Some(s.as_str()),
            None => None,
        }
    }

    pub fn local_name(&self) -> (r: &str)
        ensures
            r@ == self@.local_name,
    {
        self.local_name.as_str()
    }

    pub fn prefix(&self) -> (r: Option<&str>)
        ensures
            r is Some <==> self@.prefix is Some,
            r is Some ==> r->0@ == self@.prefix->0,
    {
        match &self.prefix {
            Some(s) => Some(s.as_str()),
            None => None,
        }
    }

    pub fn set_prefix(&mut self, prefix: Option<String>)
        ensures
            final(self)@ == (QNameView { prefix: opt_view(prefix), ..old(self)@ }),
    {
        self.prefix = prefix;
    }

    pub fn set_namespace_uri(&mut self, namespace_uri: Option<String>)
        ensures
            final(self)@ == (QNameView { namespace_uri: opt_view(namespace_uri), ..old(self)@ }),
    {
        self.namespace_uri = namespace_uri;
    }

    pub fn set_local_name(&mut self, local_name: String)
        ensures
            final(self)@ == (QNameView { local_name: local_name@, ..old(self)@ }),
    {
        self.local_name = local_name;
    }

    /// A copy of the name.
    pub fn copy(&self) -> (r: QName)
        ensures
            r@ == self@,
    {
        QName {
            namespace_uri: clone_opt(&self.namespace_uri),
            local_name: self.local_name.clone(),
            prefix: clone_opt(&self.prefix),
        }
    }
}

} // verus!
