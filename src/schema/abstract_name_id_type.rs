use vstd::prelude::*;

use crate::schema::issuer::Issuer;
use crate::schema::name_id::NameID;

verus! {

/// The qualifiers shared by identifiers in the shape of a name.
pub trait AbstractNameIDType {
    fn name_qualifier(&self) -> Option<&String>;

    fn set_name_qualifier(&mut self, name_qualifier: Option<String>);

    fn sp_name_qualifier(&self) -> Option<&String>;

    fn set_sp_name_qualifier(&mut self, sp_name_qualifier: Option<String>);

    fn format(&self) -> Option<&String>;

    fn set_format(&mut self, format: Option<String>);

    fn sp_provided_id(&self) -> Option<&String>;

    fn set_sp_provided_id(&mut self, sp_provided_id: Option<String>);
}

impl AbstractNameIDType for Issuer {
    fn name_qualifier(&self) -> Option<&String> {
        self.name_qualifier.as_ref()
    }

    fn set_name_qualifier(&mut self, name_qualifier: Option<String>) {
        self.name_qualifier = name_qualifier;
    }

    fn sp_name_qualifier(&self) -> Option<&String> {
        self.sp_name_qualifier.as_ref()
    }

    fn set_sp_name_qualifier(&mut self, sp_name_qualifier: Option<String>) {
        self.sp_name_qualifier = sp_name_qualifier;
    }

    fn format(&self) -> Option<&String> {
        self.format.as_ref()
    }

    fn set_format(&mut self, format: Option<String>) {
        self.format = format;
    }

    fn sp_provided_id(&self) -> Option<&String> {
        self.sp_provided_id.as_ref()
    }

    fn set_sp_provided_id(&mut self, sp_provided_id: Option<String>) {
        self.sp_provided_id = sp_provided_id;
    }
}

impl AbstractNameIDType for NameID {
    fn name_qualifier(&self) -> Option<&String> {
        self.name_qualifier.as_ref()
    }

    fn set_name_qualifier(&mut self, name_qualifier: Option<String>) {
        self.name_qualifier = name_qualifier;
    }

    fn sp_name_qualifier(&self) -> Option<&String> {
        self.sp_name_qualifier.as_ref()
    }

    fn set_sp_name_qualifier(&mut self, sp_name_qualifier: Option<String>) {
        self.sp_name_qualifier = sp_name_qualifier;
    }

    fn format(&self) -> Option<&String> {
        self.format.as_ref()
    }

    fn set_format(&mut self, format: Option<String>) {
        self.format = format;
    }

    fn sp_provided_id(&self) -> Option<&String> {
        self.sp_provided_id.as_ref()
    }

    fn set_sp_provided_id(&mut self, sp_provided_id: Option<String>) {
        self.sp_provided_id = sp_provided_id;
    }
}

} // verus!
