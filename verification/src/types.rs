//! Scalar value types that name the parts of a connection target.

use crate::text::{to_uppercase, uppercase};
use vstd::prelude::*;
use vstd::std_specs::convert::FromSpecImpl;
use vstd::string::*;

verus! {

/// The grammar in which a connection string is written.
#[derive(Debug, Clone, Copy, PartialEq, Eq, Structural)]
pub enum ConnectionStringType {
    /// `host:port/service[:type][/instance]`
    EzConnect,
    /// The parenthesised connection descriptor.
    Tns,
}

/// The account with which a connection logs in.
#[derive(Debug)]
pub struct Authentication {
    pub username: String,
    pub password: String,
}

impl Default for Authentication {
    /// Empty user name and password.
    fn default() -> (r: Self)
        ensures
            r.username@ == Seq::<char>::empty(),
            r.password@ == Seq::<char>::empty(),
    {
        Authentication { username: String::new(), password: String::new() }
    }
}

impl Clone for Authentication {
    fn clone(&self) -> (r: Self)
        ensures
            r.username@ == self.username@,
            r.password@ == self.password@,
    {
        Authentication { username: self.username.clone(), password: self.password.clone() }
    }
}

/// TCP port on which the listener answers.
#[derive(Debug, Clone, Copy, PartialEq, Eq, Structural)]
pub struct Port(pub u16);

impl Port {
    /// The port number.
    pub fn value(&self) -> (r: u16)
        ensures
            r == self.0,
    {
        self.0
    }
}

/// Network name or address of the database host.
#[derive(Debug)]
pub struct HostName(String);

impl View for HostName {
    type V = Seq<char>;

    closed spec fn view(&self) -> Seq<char> {
        self.0@
    }
}

impl Clone for HostName {
    fn clone(&self) -> (r: Self)
        ensures
            r@ == self@,
    {
        HostName(self.0.clone())
    }
}

impl FromSpecImpl<String> for HostName {
    open spec fn obeys_from_spec() -> bool {
        true
    }

    closed spec fn from_spec(v: String) -> Self {
        HostName(v)
    }
}

impl From<String> for HostName {
    /// Takes the text as it is.
    fn from(v: String) -> (r: Self)
        ensures
            r@ == v@,
    {
        HostName(v)
    }
}

/// No value of specifications stands for the result: the contract of `from`
/// says what it is.
impl<'a> FromSpecImpl<&'a str> for HostName {
    open spec fn obeys_from_spec() -> bool {
        false
    }

    open spec fn from_spec(v: &'a str) -> Self {
        arbitrary()
    }
}

impl<'a> From<&'a str> for HostName {
    /// Takes the text as it is.
    fn from(v: &'a str) -> (r: Self)
        ensures
            r@ == v@,
    {
        HostName(String::from_str(v))
    }
}

impl HostName {
    /// The text, borrowed.
    pub fn as_str(&self) -> (r: &str)
        ensures
            r@ == self@,
    {
        self.0.as_str()
    }

    /// The text, as a new `String`.
    pub fn to_string(&self) -> (r: String)
        ensures
            r@ == self@,
    {
        self.0.clone()
    }
}

/// Name of a database service.
#[derive(Debug)]
pub struct ServiceName(String);

impl View for ServiceName {
    type V = Seq<char>;

    closed spec fn view(&self) -> Seq<char> {
        self.0@
    }
}

impl Clone for ServiceName {
    fn clone(&self) -> (r: Self)
        ensures
            r@ == self@,
    {
        ServiceName(self.0.clone())
    }
}

impl FromSpecImpl<String> for ServiceName {
    open spec fn obeys_from_spec() -> bool {
        true
    }

    closed spec fn from_spec(v: String) -> Self {
        ServiceName(v)
    }
}

impl From<String> for ServiceName {
    /// Takes the text as it is.
    fn from(v: String) -> (r: Self)
        ensures
            r@ == v@,
    {
        ServiceName(v)
    }
}

/// No value of specifications stands for the result: the contract of `from`
/// says what it is.
impl<'a> FromSpecImpl<&'a str> for ServiceName {
    open spec fn obeys_from_spec() -> bool {
        false
    }

    open spec fn from_spec(v: &'a str) -> Self {
        arbitrary()
    }
}

impl<'a> From<&'a str> for ServiceName {
    /// Takes the text as it is.
    fn from(v: &'a str) -> (r: Self)
        ensures
            r@ == v@,
    {
        ServiceName(String::from_str(v))
    }
}

impl ServiceName {
    /// The text, borrowed.
    pub fn as_str(&self) -> (r: &str)
        ensures
            r@ == self@,
    {
        self.0.as_str()
    }

    /// The text, as a new `String`.
    pub fn to_string(&self) -> (r: String)
        ensures
            r@ == self@,
    {
        self.0.clone()
    }
}

/// How the server handles the session, such as `dedicated` or `shared`.
#[derive(Debug)]
pub struct ServiceType(String);

impl View for ServiceType {
    type V = Seq<char>;

    closed spec fn view(&self) -> Seq<char> {
        self.0@
    }
}

impl Clone for ServiceType {
    fn clone(&self) -> (r: Self)
        ensures
            r@ == self@,
    {
        ServiceType(self.0.clone())
    }
}

impl FromSpecImpl<String> for ServiceType {
    open spec fn obeys_from_spec() -> bool {
        true
    }

    closed spec fn from_spec(v: String) -> Self {
        ServiceType(v)
    }
}

impl From<String> for ServiceType {
    /// Takes the text as it is.
    fn from(v: String) -> (r: Self)
        ensures
            r@ == v@,
    {
        ServiceType(v)
    }
}

/// No value of specifications stands for the result: the contract of `from`
/// says what it is.
impl<'a> FromSpecImpl<&'a str> for ServiceType {
    open spec fn obeys_from_spec() -> bool {
        false
    }

    open spec fn from_spec(v: &'a str) -> Self {
        arbitrary()
    }
}

impl<'a> From<&'a str> for ServiceType {
    /// Takes the text as it is.
    fn from(v: &'a str) -> (r: Self)
        ensures
            r@ == v@,
    {
        ServiceType(String::from_str(v))
    }
}

impl ServiceType {
    /// The text, borrowed.
    pub fn as_str(&self) -> (r: &str)
        ensures
            r@ == self@,
    {
        self.0.as_str()
    }

    /// The text, as a new `String`.
    pub fn to_string(&self) -> (r: String)
        ensures
            r@ == self@,
    {
        self.0.clone()
    }
}

/// Identifier of an instance that is addressed without a service name.
#[derive(Debug)]
pub struct Sid(String);

impl View for Sid {
    type V = Seq<char>;

    closed spec fn view(&self) -> Seq<char> {
        self.0@
    }
}

impl Clone for Sid {
    fn clone(&self) -> (r: Self)
        ensures
            r@ == self@,
    {
        Sid(self.0.clone())
    }
}

impl FromSpecImpl<String> for Sid {
    open spec fn obeys_from_spec() -> bool {
        true
    }

    closed spec fn from_spec(v: String) -> Self {
        Sid(v)
    }
}

impl From<String> for Sid {
    /// Takes the text as it is.
    fn from(v: String) -> (r: Self)
        ensures
            r@ == v@,
    {
        Sid(v)
    }
}

/// No value of specifications stands for the result: the contract of `from`
/// says what it is.
impl<'a> FromSpecImpl<&'a str> for Sid {
    open spec fn obeys_from_spec() -> bool {
        false
    }

    open spec fn from_spec(v: &'a str) -> Self {
        arbitrary()
    }
}

impl<'a> From<&'a str> for Sid {
    /// Takes the text as it is.
    fn from(v: &'a str) -> (r: Self)
        ensures
            r@ == v@,
    {
        Sid(String::from_str(v))
    }
}

impl Sid {
    /// The text, borrowed.
    pub fn as_str(&self) -> (r: &str)
        ensures
            r@ == self@,
    {
        self.0.as_str()
    }

    /// The text, as a new `String`.
    pub fn to_string(&self) -> (r: String)
        ensures
            r@ == self@,
    {
        self.0.clone()
    }
}

/// Identifier of an instance given next to a service name.
#[derive(Debug)]
pub struct DescriptorSid(String);

impl View for DescriptorSid {
    type V = Seq<char>;

    closed spec fn view(&self) -> Seq<char> {
        self.0@
    }
}

impl Clone for DescriptorSid {
    fn clone(&self) -> (r: Self)
        ensures
            r@ == self@,
    {
        DescriptorSid(self.0.clone())
    }
}

impl FromSpecImpl<String> for DescriptorSid {
    open spec fn obeys_from_spec() -> bool {
        true
    }

    closed spec fn from_spec(v: String) -> Self {
        DescriptorSid(v)
    }
}

impl From<String> for DescriptorSid {
    /// Takes the text as it is.
    fn from(v: String) -> (r: Self)
        ensures
            r@ == v@,
    {
        DescriptorSid(v)
    }
}

/// No value of specifications stands for the result: the contract of `from`
/// says what it is.
impl<'a> FromSpecImpl<&'a str> for DescriptorSid {
    open spec fn obeys_from_spec() -> bool {
        false
    }

    open spec fn from_spec(v: &'a str) -> Self {
        arbitrary()
    }
}

impl<'a> From<&'a str> for DescriptorSid {
    /// Takes the text as it is.
    fn from(v: &'a str) -> (r: Self)
        ensures
            r@ == v@,
    {
        DescriptorSid(String::from_str(v))
    }
}

impl DescriptorSid {
    /// The text, borrowed.
    pub fn as_str(&self) -> (r: &str)
        ensures
            r@ == self@,
    {
        self.0.as_str()
    }

    /// The text, as a new `String`.
    pub fn to_string(&self) -> (r: String)
        ensures
            r@ == self@,
    {
        self.0.clone()
    }
}

/// Alias under which a naming service knows the whole connection.
#[derive(Debug)]
pub struct InstanceAlias(String);

impl View for InstanceAlias {
    type V = Seq<char>;

    closed spec fn view(&self) -> Seq<char> {
        self.0@
    }
}

impl Clone for InstanceAlias {
    fn clone(&self) -> (r: Self)
        ensures
            r@ == self@,
    {
        InstanceAlias(self.0.clone())
    }
}

impl FromSpecImpl<String> for InstanceAlias {
    open spec fn obeys_from_spec() -> bool {
        true
    }

    closed spec fn from_spec(v: String) -> Self {
        InstanceAlias(v)
    }
}

impl From<String> for InstanceAlias {
    /// Takes the text as it is.
    fn from(v: String) -> (r: Self)
        ensures
            r@ == v@,
    {
        InstanceAlias(v)
    }
}

/// No value of specifications stands for the result: the contract of `from`
/// says what it is.
impl<'a> FromSpecImpl<&'a str> for InstanceAlias {
    open spec fn obeys_from_spec() -> bool {
        false
    }

    open spec fn from_spec(v: &'a str) -> Self {
        arbitrary()
    }
}

impl<'a> From<&'a str> for InstanceAlias {
    /// Takes the text as it is.
    fn from(v: &'a str) -> (r: Self)
        ensures
            r@ == v@,
    {
        InstanceAlias(String::from_str(v))
    }
}

impl InstanceAlias {
    /// The text, borrowed.
    pub fn as_str(&self) -> (r: &str)
        ensures
            r@ == self@,
    {
        self.0.as_str()
    }

    /// The text, as a new `String`.
    pub fn to_string(&self) -> (r: String)
        ensures
            r@ == self@,
    {
        self.0.clone()
    }
}

/// Name of a database instance, put in upper case when it is made.
#[derive(Debug)]
pub struct InstanceName(String);

impl View for InstanceName {
    type V = Seq<char>;

    closed spec fn view(&self) -> Seq<char> {
        self.0@
    }
}

impl Clone for InstanceName {
    fn clone(&self) -> (r: Self)
        ensures
            r@ == self@,
    {
        InstanceName(self.0.clone())
    }
}

/// No value of specifications stands for the result: the contract of `from`
/// says what it is.
impl FromSpecImpl<String> for InstanceName {
    open spec fn obeys_from_spec() -> bool {
        false
    }

    open spec fn from_spec(v: String) -> Self {
        arbitrary()
    }
}

impl From<String> for InstanceName {
    /// Takes the text in upper case.
    fn from(v: String) -> (r: Self)
        ensures
            r@ == uppercase(v@),
    {
        InstanceName(to_uppercase(v.as_str()))
    }
}

/// No value of specifications stands for the result: the contract of `from`
/// says what it is.
impl<'a> FromSpecImpl<&'a str> for InstanceName {
    open spec fn obeys_from_spec() -> bool {
        false
    }

    open spec fn from_spec(v: &'a str) -> Self {
        arbitrary()
    }
}

impl<'a> From<&'a str> for InstanceName {
    /// Takes the text in upper case.
    fn from(v: &'a str) -> (r: Self)
        ensures
            r@ == uppercase(v@),
    {
        InstanceName(to_uppercase(v))
    }
}

impl InstanceName {
    /// The text, borrowed.
    pub fn as_str(&self) -> (r: &str)
        ensures
            r@ == self@,
    {
        self.0.as_str()
    }

    /// The text, as a new `String`.
    pub fn to_string(&self) -> (r: String)
        ensures
            r@ == self@,
    {
        self.0.clone()
    }
}


/// The text of one SQL query.
#[derive(Debug)]
pub struct SqlQuery(String);

impl View for SqlQuery {
    type V = Seq<char>;

    closed spec fn view(&self) -> Seq<char> {
        self.0@
    }
}

impl SqlQuery {
    /// A query of the given text.
    pub fn new(text: &str) -> (r: Self)
        ensures
            r@ == text@,
    {
        SqlQuery(String::from_str(text))
    }

    /// The text, borrowed.
    pub fn as_str(&self) -> (r: &str)
        ensures
            r@ == self@,
    {
        self.0.as_str()
    }
}

} // verus!
