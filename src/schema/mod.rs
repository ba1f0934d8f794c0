//! Protocol and assertion elements.
pub mod binding;
pub mod fields;
pub mod values;
pub mod abstract_name_id_type;
pub mod assertion;
pub mod audience;
pub mod audience_restriction;
pub mod authenticating_authority;
pub mod authn_context;
pub mod authn_context_class_ref;
pub mod authn_context_decl;
pub mod authn_context_decl_ref;
pub mod authn_request;
pub mod authn_statement;
pub mod base_id;
pub mod conditions;
pub mod encrypted_assertion;
pub mod encrypted_element_type;
pub mod encrypted_id;
pub mod extensions;
pub mod get_complete;
pub mod idp_entry;
pub mod idp_list;
pub mod issuer;
pub mod name_id;
pub mod name_id_policy;
pub mod requested_authn_context;
pub mod request_abstract_type;
pub mod requester_id;
pub mod response;
pub mod scoping;
pub mod status;
pub mod status_code;
pub mod status_detail;
pub mod status_message;
pub mod status_response_type;
pub mod subject;
pub mod subject_confirmation;
pub mod subject_confirmation_data;
pub mod subject_locality;
