use vstd::prelude::*;

use crate::schema::extensions::Extensions;
use crate::schema::issuer::Issuer;
use crate::schema::values::{SAMLVersion, Timestamp};
use crate::xml::XmlObject;
use crate::schema::response::Response;
use crate::schema::status::Status;

verus! {

/// The fields that every protocol response carries.
pub trait StatusResponseType {
    fn version(&self) -> &SAMLVersion;

    fn set_version(&mut self, version: SAMLVersion);

    fn id(&self) -> &String;

    fn set_id(&mut self, id: String);

    fn issue_instant(&self) -> &Timestamp;

    fn set_issue_instant(&mut self, issue_instant: Timestamp);

    fn status(&self) -> &Status;

    fn set_status(&mut self, status: Status);

    fn destination(&self) -> Option<&String>;

    fn set_destination(&mut self, destination: Option<String>);

    fn consent(&self) -> Option<&String>;

    fn set_consent(&mut self, consent: Option<String>);

    fn issuer(&self) -> Option<&Issuer>;

    fn set_issuer(&mut self, issuer: Option<Issuer>);

    fn extensions(&self) -> Option<&Extensions>;

    fn set_extensions(&mut self, extensions: Option<Extensions>);

    fn signature(&self) -> Option<&XmlObject>;

    fn set_signature(&mut self, signature: Option<XmlObject>);

    fn in_response_to(&self) -> Option<&String>;

    fn set_in_response_to(&mut self, in_response_to: Option<String>);
}

impl StatusResponseType for Response {
    fn version(&self) -> &SAMLVersion {
        &self.version
    }

    fn set_version(&mut self, version: SAMLVersion) {
        self.version = version;
    }

    fn id(&self) -> &String {
        &self.id
    }

    fn set_id(&mut self, id: String) {
        self.id = id;
    }

    fn issue_instant(&self) -> &Timestamp {
        &self.issue_instant
    }

    fn set_issue_instant(&mut self, issue_instant: Timestamp) {
        self.issue_instant = issue_instant;
    }

    fn status(&self) -> &Status {
        &self.status
    }

    fn set_status(&mut self, status: Status) {
        self.status = status;
    }

    fn destination(&self) -> Option<&String> {
        self.destination.as_ref()
    }

    fn set_destination(&mut self, destination: Option<String>) {
        self.destination = destination;
    }

    fn consent(&self) -> Option<&String> {
        self.consent.as_ref()
    }

    fn set_consent(&mut self, consent: Option<String>) {
        self.consent = consent;
    }

    fn issuer(&self) -> Option<&Issuer> {
        self.issuer.as_ref()
    }

    fn set_issuer(&mut self, issuer: Option<Issuer>) {
        self.issuer = issuer;
    }

    fn extensions(&self) -> Option<&Extensions> {
        self.extensions.as_ref()
    }

    fn set_extensions(&mut self, extensions: Option<Extensions>) {
        self.extensions = extensions;
    }

    fn signature(&self) -> Option<&XmlObject> {
        self.signature.as_ref()
    }

    fn set_signature(&mut self, signature: Option<XmlObject>) {
        self.signature = signature;
    }

    fn in_response_to(&self) -> Option<&String> {
        self.in_response_to.as_ref()
    }

    fn set_in_response_to(&mut self, in_response_to: Option<String>) {
        self.in_response_to = in_response_to;
    }
}

} // verus!
