use vstd::prelude::*;

verus! {

/// The routing identifier of the demo event schema.
pub const DEMO_EVENT_SCHEMA_REF: &'static str = "strmprivacy/demo/1.0.2";

/// The avro schema of the demo event.
pub const DEMO_EVENT_SCHEMA: &'static str = r#"{
    "type": "record",
    "name": "DemoEvent",
    "namespace": "io.strmprivacy.schemas.demo.v1",
    "fields": [
        {
            "name": "strmMeta",
            "type": {
                "type": "record",
                "name": "StrmMeta",
                "fields": [
                    {
                        "name": "eventContractRef",
                        "type": "string"
                    },
                    {
                        "name": "nonce",
                        "type": [
                            "null",
                            "int"
                        ],
                        "default": null
                    },
                    {
                        "name": "timestamp",
                        "type": [
                            "null",
                            "long"
                        ],
                        "default": null
                    },
                    {
                        "name": "keyLink",
                        "type": [
                            "null",
                            "string"
                        ],
                        "default": null
                    },
                    {
                        "name": "billingId",
                        "type": [
                            "null",
                            "string"
                        ],
                        "default": null
                    },
                    {
                        "name": "consentLevels",
                        "type": {
                            "type": "array",
                            "items": "int"
                        }
                    }
                ]
            }
        },
        {
            "name": "uniqueIdentifier",
            "type": [
                "null",
                "string"
            ],
            "default": null,
            "doc": "any value. For illustration purposes: use a value that is consistent over time like a customer or device ID."
        },
        {
            "name": "consistentValue",
            "type": "string",
            "doc": "any value. For illustration purposes: use a value that is consistent over a limited period like a session."
        },
        {
            "name": "someSensitiveValue",
            "type": [
                "null",
                "string"
            ],
            "default": null,
            "doc": "any value. For illustration purposes: use a value that could identify a user over time based on behavior, like browsing behavior (e.g. urls)."
        },
        {
            "name": "notSensitiveValue",
            "type": [
                "null",
                "string"
            ],
            "default": null,
            "doc": "any value. For illustration purposes: use a value that is not sensitive at all, like the rank of an item in a set."
        }
    ]
}"#;

/// The metadata that every event carries.
pub struct StrmMeta {
    pub event_contract_ref: String,
    pub nonce: Option<i32>,
    pub timestamp: Option<i64>,
    pub key_link: Option<String>,
    pub billing_id: Option<String>,
    pub consent_levels: Vec<i32>,
}

impl Default for StrmMeta {
    fn default() -> (r: StrmMeta)
        ensures
            r.event_contract_ref@.len() == 0,
            r.nonce is None,
            r.timestamp is None,
            r.key_link is None,
            r.billing_id is None,
            r.consent_levels@.len() == 0,
    {
        StrmMeta {
            event_contract_ref: String::new(),
            nonce: None,
            timestamp: None,
            key_link: None,
            billing_id: None,
            consent_levels: Vec::new(),
        }
    }
}

/// An event of the demo schema.
pub struct DemoEvent {
    pub strm_meta: StrmMeta,
    pub unique_identifier: Option<String>,
    pub consistent_value: String,
    pub some_sensitive_value: Option<String>,
    pub not_sensitive_value: Option<String>,
}

impl Default for DemoEvent {
    fn default() -> (r: DemoEvent)
        ensures
            r.strm_meta.event_contract_ref@.len() == 0,
            r.strm_meta.nonce is None,
            r.strm_meta.timestamp is None,
            r.strm_meta.key_link is None,
            r.strm_meta.billing_id is None,
            r.strm_meta.consent_levels@.len() == 0,
            r.unique_identifier is None,
            r.consistent_value@.len() == 0,
            r.some_sensitive_value is None,
            r.not_sensitive_value is None,
    {
        DemoEvent {
            strm_meta: StrmMeta::default(),
            unique_identifier: None,
            consistent_value: String::new(),
            some_sensitive_value: None,
            not_sensitive_value: None,
        }
    }
}

} // verus!
