//! The data model: settings as the remote API returns them, and the token
//! response of the OAuth2 endpoint.

use vstd::prelude::*;

verus! {

/// One scalar entry of a setting's value: either a number or a string. The
/// remote API transmits no explicit tag; a reader tries the numeric shape
/// first and falls back to the string shape. A number is held as the bit
/// pattern of its 64-bit IEEE 754 encoding, so that it is carried through
/// unchanged and never interpreted.
#[derive(Debug, Clone, PartialEq)]
pub enum Value {
    Double(u64),
    String(String),
}

/// The mathematical model of a [`Value`].
pub enum ValueModel {
    Double(u64),
    Text(Seq<char>),
}

impl View for Value {
    type V = ValueModel;

    open spec fn view(&self) -> ValueModel {
        match self {
            Value::Double(bits) => ValueModel::Double(*bits),
            Value::String(s) => ValueModel::Text(s@),
        }
    }
}

impl DeepView for Value {
    type V = ValueModel;

    open spec fn deep_view(&self) -> ValueModel {
        self.view()
    }
}

/// One remote configuration entry. Only `key` and `value` drive the logic;
/// the remaining fields are metadata carried through and never interpreted.
/// The nullable audit fields are opaque remote-side data, held as raw JSON
/// text.
#[derive(Debug, Clone, PartialEq)]
pub struct Setting {
    pub key: String,
    pub created_by: Option<String>,
    pub public_id: String,
    pub updated_on: String,
    pub enabled: bool,
    pub updated_by: Option<String>,
    pub created_user: Option<String>,
    pub is_editable: bool,
    pub value: Option<Vec<Vec<Value>>>,
    pub id: i64,
    pub old_id: Option<String>,
    pub created_on: String,
    pub updated_user: Option<String>,
}

/// The mathematical model of a [`Setting`].
pub struct SettingModel {
    pub key: Seq<char>,
    pub created_by: Option<Seq<char>>,
    pub public_id: Seq<char>,
    pub updated_on: Seq<char>,
    pub enabled: bool,
    pub updated_by: Option<Seq<char>>,
    pub created_user: Option<Seq<char>>,
    pub is_editable: bool,
    pub value: Option<Seq<Seq<ValueModel>>>,
    pub id: i64,
    pub old_id: Option<Seq<char>>,
    pub created_on: Seq<char>,
    pub updated_user: Option<Seq<char>>,
}

impl View for Setting {
    type V = SettingModel;

    open spec fn view(&self) -> SettingModel {
        SettingModel {
            key: self.key@,
            created_by: self.created_by.deep_view(),
            public_id: self.public_id@,
            updated_on: self.updated_on@,
            enabled: self.enabled,
            updated_by: self.updated_by.deep_view(),
            created_user: self.created_user.deep_view(),
            is_editable: self.is_editable,
            value: self.value.deep_view(),
            id: self.id,
            old_id: self.old_id.deep_view(),
            created_on: self.created_on@,
            updated_user: self.updated_user.deep_view(),
        }
    }
}

impl DeepView for Setting {
    type V = SettingModel;

    open spec fn deep_view(&self) -> SettingModel {
        self.view()
    }
}

/// The body of a successful token-endpoint response.
#[derive(Debug, Clone, PartialEq)]
pub struct Token {
    pub access_token: String,
}

impl View for Token {
    type V = Seq<char>;

    open spec fn view(&self) -> Seq<char> {
        self.access_token@
    }
}

} // verus!
