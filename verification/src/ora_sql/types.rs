//! The identity of a connection target and the connection strings made
//! from it.

use crate::text::{decimal_string, decimal_text, to_uppercase, uppercase};
use crate::types::{
    Authentication, ConnectionStringType, DescriptorSid, HostName, InstanceAlias, InstanceName, Port, ServiceName,
    ServiceType, Sid,
};
use vstd::prelude::*;
use vstd::string::*;

verus! {

/// What a `Descriptor` holds, as plain text.
pub struct DescriptorView {
    pub service_name: Seq<char>,
    pub service_type: Option<Seq<char>>,
    pub instance_name: Option<Seq<char>>,
    pub sid: Option<Seq<char>>,
}

/// What a `TargetId` holds, as plain text.
pub enum TargetIdView {
    Descriptor(DescriptorView),
    Sid(Seq<char>),
    Alias(Seq<char>),
    NoId,
}

/// The optional inputs from which an identity is resolved, as plain text.
pub struct IdentityInputs {
    pub service_name: Option<Seq<char>>,
    pub sid: Option<Seq<char>>,
    pub alias: Option<Seq<char>>,
    pub instance_name: Option<Seq<char>>,
    pub service_type: Option<Seq<char>>,
}

/// The text of an optional borrowed value.
pub open spec fn text_of<T: View<V = Seq<char>> + ?Sized>(value: Option<&T>) -> Option<Seq<char>> {
    match value {
        Some(v) => Some(v@),
        None => None,
    }
}

/// The text of an optional owned value.
pub open spec fn owned_text_of<T: View<V = Seq<char>>>(value: Option<T>) -> Option<Seq<char>> {
    match value {
        Some(v) => Some(v@),
        None => None,
    }
}

impl TargetIdView {
    /// The service name, which only a descriptor has.
    pub open spec fn service_name(self) -> Option<Seq<char>> {
        match self {
            TargetIdView::Descriptor(d) => Some(d.service_name),
            _ => None,
        }
    }

    /// The instance name, which only a descriptor may have.
    pub open spec fn instance_name(self) -> Option<Seq<char>> {
        match self {
            TargetIdView::Descriptor(d) => d.instance_name,
            _ => None,
        }
    }

    /// The SID given next to a service name, which only a descriptor may have.
    pub open spec fn descriptor_sid(self) -> Option<Seq<char>> {
        match self {
            TargetIdView::Descriptor(d) => d.sid,
            _ => None,
        }
    }

    /// The service type, which only a descriptor may have.
    pub open spec fn service_type(self) -> Option<Seq<char>> {
        match self {
            TargetIdView::Descriptor(d) => d.service_type,
            _ => None,
        }
    }

    /// The SID of an identity that is a SID and nothing else.
    pub open spec fn standalone_sid(self) -> Option<Seq<char>> {
        match self {
            TargetIdView::Sid(s) => Some(s),
            _ => None,
        }
    }

    /// The alias of an alias identity.
    pub open spec fn alias(self) -> Option<Seq<char>> {
        match self {
            TargetIdView::Alias(a) => Some(a),
            _ => None,
        }
    }

    /// No accessor of the descriptor group yields a value.
    pub open spec fn descriptor_group_absent(self) -> bool {
        &&& self.service_name().is_none()
        &&& self.instance_name().is_none()
        &&& self.descriptor_sid().is_none()
        &&& self.service_type().is_none()
    }
}

/// The identity that the inputs resolve to: an alias wins over a service
/// name, a service name over a bare SID, and without any of them the
/// identity is undefined.
pub open spec fn resolve(inputs: IdentityInputs) -> TargetIdView {
    if let Some(alias) = inputs.alias {
        TargetIdView::Alias(alias)
    } else if let Some(service_name) = inputs.service_name {
        TargetIdView::Descriptor(
            DescriptorView {
                service_name,
                service_type: inputs.service_type,
                instance_name: inputs.instance_name,
                sid: inputs.sid,
            },
        )
    } else if let Some(sid) = inputs.sid {
        TargetIdView::Sid(sid)
    } else {
        TargetIdView::NoId
    }
}

/// Addresses an instance through a service.
#[derive(Debug)]
pub struct Descriptor {
    service_name: ServiceName,
    service_type: Option<ServiceType>,
    instance_name: Option<InstanceName>,
    sid: Option<DescriptorSid>,
}

impl View for Descriptor {
    type V = DescriptorView;

    closed spec fn view(&self) -> DescriptorView {
        DescriptorView {
            service_name: self.service_name@,
            service_type: owned_text_of(self.service_type),
            instance_name: owned_text_of(self.instance_name),
            sid: owned_text_of(self.sid),
        }
    }
}

impl Clone for Descriptor {
    fn clone(&self) -> (r: Self)
        ensures
            r@ == self@,
    {
        Descriptor {
            service_name: self.service_name.clone(),
            service_type: match &self.service_type {
                Some(v) => Some(v.clone()),
                None => None,
            },
            instance_name: match &self.instance_name {
                Some(v) => Some(v.clone()),
                None => None,
            },
            sid: match &self.sid {
                Some(v) => Some(v.clone()),
                None => None,
            },
        }
    }
}

impl Descriptor {
    /// A descriptor of the given parts.
    pub fn new(
        service_name: ServiceName,
        service_type: Option<ServiceType>,
        instance_name: Option<InstanceName>,
        sid: Option<DescriptorSid>,
    ) -> (r: Self)
        ensures
            r@ == (DescriptorView {
                service_name: service_name@,
                service_type: owned_text_of(service_type),
                instance_name: owned_text_of(instance_name),
                sid: owned_text_of(sid),
            }),
    {
        Descriptor { service_name, service_type, instance_name, sid }
    }
}

/// The one way in which a target is addressed.
#[derive(Debug)]
pub enum TargetId {
    Descriptor(Descriptor),
    Sid(Sid),
    Alias(InstanceAlias),
    NoId,
}

impl View for TargetId {
    type V = TargetIdView;

    open spec fn view(&self) -> TargetIdView {
        match self {
            TargetId::Descriptor(d) => TargetIdView::Descriptor(d@),
            TargetId::Sid(s) => TargetIdView::Sid(s@),
            TargetId::Alias(a) => TargetIdView::Alias(a@),
            TargetId::NoId => TargetIdView::NoId,
        }
    }
}

impl Clone for TargetId {
    fn clone(&self) -> (r: Self)
        ensures
            r@ == self@,
    {
        match self {
            TargetId::Descriptor(d) => TargetId::Descriptor(d.clone()),
            TargetId::Sid(s) => TargetId::Sid(s.clone()),
            TargetId::Alias(a) => TargetId::Alias(a.clone()),
            TargetId::NoId => TargetId::NoId,
        }
    }
}

impl TargetId {
    /// The service name, which only a descriptor has.
    pub fn service_name(&self) -> (r: Option<&ServiceName>)
        ensures
            text_of(r) == self@.service_name(),
    {
        match self {
            TargetId::Descriptor(descriptor) => Some(&descriptor.service_name),
            _ => None,
        }
    }

    /// The instance name, which only a descriptor may have.
    pub fn instance_name(&self) -> (r: Option<&InstanceName>)
        ensures
            text_of(r) == self@.instance_name(),
    {
        match self {
            TargetId::Descriptor(descriptor) => descriptor.instance_name.as_ref(),
            _ => None,
        }
    }

    /// The SID given next to a service name, which only a descriptor may have.
    pub fn descriptor_sid(&self) -> (r: Option<&DescriptorSid>)
        ensures
            text_of(r) == self@.descriptor_sid(),
    {
        match self {
            TargetId::Descriptor(descriptor) => descriptor.sid.as_ref(),
            _ => None,
        }
    }

    /// The service type, which only a descriptor may have.
    pub fn service_type(&self) -> (r: Option<&ServiceType>)
        ensures
            text_of(r) == self@.service_type(),
    {
        match self {
            TargetId::Descriptor(descriptor) => descriptor.service_type.as_ref(),
            _ => None,
        }
    }

    /// The SID of an identity that is a SID and nothing else.
    pub fn standalone_sid(&self) -> (r: Option<&Sid>)
        ensures
            text_of(r) == self@.standalone_sid(),
    {
        match self {
            TargetId::Sid(sid) => Some(sid),
            _ => None,
        }
    }

    /// The alias of an alias identity.
    pub fn alias(&self) -> (r: Option<&InstanceAlias>)
        ensures
            text_of(r) == self@.alias(),
    {
        match self {
            TargetId::Alias(alias) => Some(alias),
            _ => None,
        }
    }
}

/// Collects the optional inputs of an identity.
pub struct TargetIdBuilder {
    service_name: Option<ServiceName>,
    sid: Option<String>,
    alias: Option<InstanceAlias>,
    instance_name: Option<InstanceName>,
    service_type: Option<ServiceType>,
}

impl View for TargetIdBuilder {
    type V = IdentityInputs;

    closed spec fn view(&self) -> IdentityInputs {
        IdentityInputs {
            service_name: owned_text_of(self.service_name),
            sid: owned_text_of(self.sid),
            alias: owned_text_of(self.alias),
            instance_name: owned_text_of(self.instance_name),
            service_type: owned_text_of(self.service_type),
        }
    }
}

impl TargetIdBuilder {
    /// A builder without any input.
    pub fn new() -> (r: Self)
        ensures
            r@ == (IdentityInputs {
                service_name: None,
                sid: None,
                alias: None,
                instance_name: None,
                service_type: None,
            }),
    {
        Self { service_name: None, sid: None, alias: None, instance_name: None, service_type: None }
    }

    /// Sets or clears the service name; the other inputs stay.
    pub fn service_name(self, service_name: Option<&ServiceName>) -> (r: Self)
        ensures
            r@ == (IdentityInputs { service_name: text_of(service_name), ..self@ }),
    {
        let service_name = match service_name {
            Some(v) => Some(v.clone()),
            None => None,
        };
        Self {
            service_name,
            sid: self.sid,
            alias: self.alias,
            instance_name: self.instance_name,
            service_type: self.service_type,
        }
    }

    /// Sets or clears the SID; the other inputs stay.
    pub fn sid(self, sid: Option<&str>) -> (r: Self)
        ensures
            r@ == (IdentityInputs { sid: text_of(sid), ..self@ }),
    {
        let sid = match sid {
            Some(v) => Some(String::from_str(v)),
            None => None,
        };
        Self {
            service_name: self.service_name,
            sid,
            alias: self.alias,
            instance_name: self.instance_name,
            service_type: self.service_type,
        }
    }

    /// Sets or clears the alias; the other inputs stay.
    pub fn alias(self, alias: Option<&InstanceAlias>) -> (r: Self)
        ensures
            r@ == (IdentityInputs { alias: text_of(alias), ..self@ }),
    {
        let alias = match alias {
            Some(v) => Some(v.clone()),
            None => None,
        };
        Self {
            service_name: self.service_name,
            sid: self.sid,
            alias,
            instance_name: self.instance_name,
            service_type: self.service_type,
        }
    }

    /// Sets or clears the instance name; the other inputs stay.
    pub fn instance_name(self, instance_name: Option<&InstanceName>) -> (r: Self)
        ensures
            r@ == (IdentityInputs { instance_name: text_of(instance_name), ..self@ }),
    {
        let instance_name = match instance_name {
            Some(v) => Some(v.clone()),
            None => None,
        };
        Self {
            service_name: self.service_name,
            sid: self.sid,
            alias: self.alias,
            instance_name,
            service_type: self.service_type,
        }
    }

    /// Sets or clears the service type; the other inputs stay.
    pub fn service_type(self, service_type: Option<&ServiceType>) -> (r: Self)
        ensures
            r@ == (IdentityInputs { service_type: text_of(service_type), ..self@ }),
    {
        let service_type = match service_type {
            Some(v) => Some(v.clone()),
            None => None,
        };
        Self {
            service_name: self.service_name,
            sid: self.sid,
            alias: self.alias,
            instance_name: self.instance_name,
            service_type,
        }
    }

    /// Resolves the inputs into one identity.
    pub fn build(self) -> (r: TargetId)
        ensures
            r@ == resolve(self@),
    {
        if let Some(alias) = self.alias {
            TargetId::Alias(alias)
        } else if let Some(service_name) = self.service_name {
            let sid = match self.sid {
                Some(s) => Some(DescriptorSid::from(s)),
                None => None,
            };
            TargetId::Descriptor(
                Descriptor {
                    service_name,
                    service_type: self.service_type,
                    instance_name: self.instance_name,
                    sid,
                },
            )
        } else if let Some(sid) = self.sid {
            TargetId::Sid(Sid::from(sid))
        } else {
            TargetId::NoId
        }
    }
}

/// One database to connect to: where it listens, how to log in, and how
/// the instance is addressed.
#[derive(Debug)]
pub struct Target {
    pub host: HostName,
    pub port: Port,
    pub auth: Authentication,
    pub target_id: TargetId,
}

impl Clone for Target {
    fn clone(&self) -> (r: Self)
        ensures
            r.host@ == self.host@,
            r.port == self.port,
            r.auth.username@ == self.auth.username@,
            r.auth.password@ == self.auth.password@,
            r.target_id@ == self.target_id@,
    {
        Target {
            host: self.host.clone(),
            port: self.port,
            auth: self.auth.clone(),
            target_id: self.target_id.clone(),
        }
    }
}

/// The instance that a connection string names: the override where one is
/// given, else the identity's own instance name.
pub open spec fn chosen_instance(id: TargetIdView, use_instance: Option<Seq<char>>) -> Option<
    Seq<char>,
> {
    if use_instance.is_some() {
        use_instance
    } else {
        id.instance_name()
    }
}

/// `HOST:PORT/SERVICE[:SERVICE_TYPE][/INSTANCE]`; without a service name
/// only `HOST:PORT`.
pub open spec fn ez_connect_text(
    host: Seq<char>,
    port: nat,
    id: TargetIdView,
    use_instance: Option<Seq<char>>,
) -> Seq<char> {
    let address = host + ":"@ + decimal_text(port);
    match id.service_name() {
        Some(service) => {
            let base = address + "/"@ + service;
            let typed = match id.service_type() {
                Some(service_type) => base + ":"@ + service_type,
                None => base,
            };
            match chosen_instance(id, use_instance) {
                Some(instance) => typed + "/"@ + instance,
                None => typed,
            }
        },
        None => address,
    }
}

/// The `SERVER` value: the service type in upper case, `DEDICATED` without
/// one.
pub open spec fn server_text(id: TargetIdView) -> Seq<char> {
    match id.service_type() {
        Some(service_type) => uppercase(service_type),
        None => "DEDICATED"@,
    }
}

/// The clauses of `CONNECT_DATA`, separated by one space: `SERVER` first,
/// then for a descriptor `SERVICE_NAME`, `INSTANCE_NAME` and `SID` as far as
/// each is present, for a bare SID only `SID`.
pub open spec fn connect_data_text(id: TargetIdView, use_instance: Option<Seq<char>>) -> Seq<
    char,
> {
    let server = "(SERVER = "@ + server_text(id) + ")"@;
    match id.service_name() {
        Some(service) => {
            let named = server + " (SERVICE_NAME = "@ + service + ")"@;
            let with_instance = match chosen_instance(id, use_instance) {
                Some(instance) => named + " (INSTANCE_NAME = "@ + instance + ")"@,
                None => named,
            };
            match id.descriptor_sid() {
                Some(sid) => with_instance + " (SID = "@ + sid + ")"@,
                None => with_instance,
            }
        },
        None => match id.standalone_sid() {
            Some(sid) => server + " (SID = "@ + sid + ")"@,
            None => server,
        },
    }
}

/// The connection descriptor: the address clause, then `CONNECT_DATA`.
pub open spec fn tns_connect_text(
    host: Seq<char>,
    port: nat,
    id: TargetIdView,
    use_instance: Option<Seq<char>>,
) -> Seq<char> {
    "(DESCRIPTION = (ADDRESS = (PROTOCOL = TCP)(HOST = "@ + host + ")(PORT = "@ + decimal_text(
        port,
    ) + ")) (CONNECT_DATA = "@ + connect_data_text(id, use_instance) + "))"@
}

/// The connection string of an identity in the given grammar, where it has
/// one: an alias stands for itself, an undefined identity has none, a bare
/// SID has only the descriptor form, and a descriptor has both.
pub open spec fn connection_text(
    host: Seq<char>,
    port: nat,
    id: TargetIdView,
    use_instance: Option<Seq<char>>,
    conn_type: ConnectionStringType,
) -> Option<Seq<char>> {
    match id {
        TargetIdView::Alias(alias) => Some(alias),
        TargetIdView::NoId => None,
        TargetIdView::Sid(_) => match conn_type {
            ConnectionStringType::EzConnect => None,
            ConnectionStringType::Tns => Some(tns_connect_text(host, port, id, None)),
        },
        TargetIdView::Descriptor(_) => match conn_type {
            ConnectionStringType::EzConnect => Some(
                ez_connect_text(host, port, id, use_instance),
            ),
            ConnectionStringType::Tns => Some(tns_connect_text(host, port, id, use_instance)),
        },
    }
}

/// The name that is shown for an identity, before it is put in upper case.
pub open spec fn display_source(id: TargetIdView) -> Seq<char> {
    match id {
        TargetIdView::Alias(alias) => alias,
        TargetIdView::Sid(sid) => sid,
        TargetIdView::Descriptor(d) => match d.instance_name {
            Some(instance) => instance,
            None => d.service_name,
        },
        TargetIdView::NoId => "undefined"@,
    }
}

/// The name under which a target is shown and logged.
pub open spec fn display_text(id: TargetIdView) -> Seq<char> {
    uppercase(display_source(id))
}

impl Target {
    /// Of the target's identity: the service name, which only a descriptor has.
    pub fn service_name(&self) -> (r: Option<&ServiceName>)
        ensures
            text_of(r) == self.target_id@.service_name(),
    {
        self.target_id.service_name()
    }

    /// Of the target's identity: the instance name, which only a descriptor may have.
    pub fn instance_name(&self) -> (r: Option<&InstanceName>)
        ensures
            text_of(r) == self.target_id@.instance_name(),
    {
        self.target_id.instance_name()
    }

    /// Of the target's identity: the SID given next to a service name, which only a descriptor may have.
    pub fn descriptor_sid(&self) -> (r: Option<&DescriptorSid>)
        ensures
            text_of(r) == self.target_id@.descriptor_sid(),
    {
        self.target_id.descriptor_sid()
    }

    /// Of the target's identity: the SID of an identity that is a SID and nothing else.
    pub fn standalone_sid(&self) -> (r: Option<&Sid>)
        ensures
            text_of(r) == self.target_id@.standalone_sid(),
    {
        self.target_id.standalone_sid()
    }

    /// Of the target's identity: the alias of an alias identity.
    pub fn alias(&self) -> (r: Option<&InstanceAlias>)
        ensures
            text_of(r) == self.target_id@.alias(),
    {
        self.target_id.alias()
    }

    /// Of the target's identity: the service type, which only a descriptor may have.
    pub fn service_type(&self) -> (r: Option<&ServiceType>)
        ensures
            text_of(r) == self.target_id@.service_type(),
    {
        self.target_id.service_type()
    }

    /// The connection string in the grammar asked for, with `use_instance`
    /// in place of the identity's own instance name where it is given.
    pub fn make_connection_string(
        &self,
        use_instance: Option<&InstanceName>,
        conn_type: ConnectionStringType,
    ) -> (r: Option<String>)
        ensures
            owned_text_of(r) == connection_text(
                self.host@,
                self.port.0 as nat,
                self.target_id@,
                text_of(use_instance),
                conn_type,
            ),
    {
        match &self.target_id {
            TargetId::Alias(alias) => Some(alias.to_string()),
            TargetId::NoId => None,
            TargetId::Sid(_) => match conn_type {
                ConnectionStringType::EzConnect => None,
                ConnectionStringType::Tns => Some(self.make_tns_connect_string(None)),
            },
            TargetId::Descriptor(_) => match conn_type {
                ConnectionStringType::EzConnect => Some(self.make_ez_connect_string(use_instance)),
                ConnectionStringType::Tns => Some(self.make_tns_connect_string(use_instance)),
            },
        }
    }

    fn make_ez_connect_string(&self, use_instance: Option<&InstanceName>) -> (r: String)
        ensures
            r@ == ez_connect_text(
                self.host@,
                self.port.0 as nat,
                self.target_id@,
                text_of(use_instance),
            ),
    {
        let instance_name = if use_instance.is_some() {
            use_instance
        } else {
            self.instance_name()
        };
        let port = decimal_string(self.port.0);
        let mut conn_string = self.host.to_string();
        conn_string.append(":");
        conn_string.append(port.as_str());
        if let Some(service_name) = self.service_name() {
            conn_string.append("/");
            conn_string.append(service_name.as_str());
            if let Some(service_type) = self.service_type() {
                conn_string.append(":");
                conn_string.append(service_type.as_str());
            }
            if let Some(instance) = instance_name {
                conn_string.append("/");
                conn_string.append(instance.as_str());
            }
        }
        conn_string
    }

    fn make_tns_connect_string(&self, use_instance: Option<&InstanceName>) -> (r: String)
        ensures
            r@ == tns_connect_text(
                self.host@,
                self.port.0 as nat,
                self.target_id@,
                text_of(use_instance),
            ),
    {
        let instance_name = if use_instance.is_some() {
            use_instance
        } else {
            self.instance_name()
        };
        let server = match self.service_type() {
            Some(service_type) => to_uppercase(service_type.as_str()),
            None => String::from_str("DEDICATED"),
        };
        let mut connect_data = String::from_str("(SERVER = ");
        connect_data.append(server.as_str());
        connect_data.append(")");
        if let Some(service_name) = self.service_name() {
            connect_data.append(" (SERVICE_NAME = ");
            connect_data.append(service_name.as_str());
            connect_data.append(")");
            if let Some(instance) = instance_name {
                connect_data.append(" (INSTANCE_NAME = ");
                connect_data.append(instance.as_str());
                connect_data.append(")");
            }
            if let Some(sid) = self.descriptor_sid() {
                connect_data.append(" (SID = ");
                connect_data.append(sid.as_str());
                connect_data.append(")");
            }
        } else if let Some(sid) = self.standalone_sid() {
            connect_data.append(" (SID = ");
            connect_data.append(sid.as_str());
            connect_data.append(")");
        }
        let port = decimal_string(self.port.0);
        let mut conn_string = String::from_str("(DESCRIPTION = (ADDRESS = (PROTOCOL = TCP)(HOST = ");
        conn_string.append(self.host.as_str());
        conn_string.append(")(PORT = ");
        conn_string.append(port.as_str());
        conn_string.append(")) (CONNECT_DATA = ");
        conn_string.append(connect_data.as_str());
        conn_string.append("))");
        conn_string
    }

    /// The name under which the target is shown and logged: the identity's
    /// own name in upper case, never shorter than that name.
    pub fn display_name(&self) -> (r: String)
        ensures
            r@ == display_text(self.target_id@),
            r@.len() >= display_source(self.target_id@).len(),
    {
        match &self.target_id {
            TargetId::Alias(alias) => to_uppercase(alias.as_str()),
            TargetId::Sid(sid) => to_uppercase(sid.as_str()),
            TargetId::Descriptor(descriptor) => match &descriptor.instance_name {
                Some(instance) => to_uppercase(instance.as_str()),
                None => to_uppercase(descriptor.service_name.as_str()),
            },
            TargetId::NoId => to_uppercase("undefined"),
        }
    }

    /// Whether the target is addressed in any way.
    pub fn is_defined(&self) -> (r: bool)
        ensures
            r == !(self.target_id@ is NoId),
    {
        !matches!(self.target_id, TargetId::NoId)
    }
}

/// An identity answers through one group of accessors only: a descriptor
/// through the descriptor group, where the service name is always there; a
/// bare SID through `standalone_sid`; an alias through `alias`; an undefined
/// identity through none.
pub proof fn lemma_one_accessor_group(id: TargetIdView)
    ensures
        id is Descriptor ==> id.service_name().is_some() && id.standalone_sid().is_none()
            && id.alias().is_none(),
        id is Sid ==> id.standalone_sid().is_some() && id.descriptor_group_absent()
            && id.alias().is_none(),
        id is Alias ==> id.alias().is_some() && id.descriptor_group_absent()
            && id.standalone_sid().is_none(),
        id is NoId ==> id.descriptor_group_absent() && id.standalone_sid().is_none()
            && id.alias().is_none(),
        !id.descriptor_group_absent() ==> id is Descriptor,
{
}

/// Resolution goes by precedence: any alias gives an alias identity; without
/// one a service name gives a descriptor that carries the other inputs; with
/// neither a SID gives a bare SID; with none of the three the identity is
/// undefined.
pub proof fn lemma_resolve_precedence(inputs: IdentityInputs)
    ensures
        inputs.alias.is_some() <==> resolve(inputs) is Alias,
        inputs.alias.is_none() && inputs.service_name.is_some() <==> resolve(inputs) is Descriptor,
        inputs.alias.is_none() && inputs.service_name.is_none() && inputs.sid.is_some() <==> resolve(
            inputs,
        ) is Sid,
        inputs.alias.is_none() && inputs.service_name.is_none() && inputs.sid.is_none() <==> resolve(
            inputs,
        ) is NoId,
        resolve(inputs).alias() == inputs.alias,
        resolve(inputs) is Descriptor ==> resolve(inputs).service_name() == inputs.service_name
            && resolve(inputs).service_type() == inputs.service_type && resolve(
            inputs,
        ).instance_name() == inputs.instance_name && resolve(inputs).descriptor_sid()
            == inputs.sid,
        resolve(inputs) is Sid ==> resolve(inputs).standalone_sid() == inputs.sid,
{
}

/// The name shown for an undefined identity is the upper case of a word
/// that is not empty.
pub proof fn lemma_undefined_display_source()
    ensures
        display_source(TargetIdView::NoId).len() == 9,
{
    reveal_strlit("undefined");
}

/// An alias is its own connection string, in both grammars and with any
/// instance override.
pub proof fn lemma_alias_unchanged(
    host: Seq<char>,
    port: nat,
    alias: Seq<char>,
    use_instance: Option<Seq<char>>,
    conn_type: ConnectionStringType,
)
    ensures
        connection_text(host, port, TargetIdView::Alias(alias), use_instance, conn_type) == Some(
            alias,
        ),
{
}

/// Neither a bare SID nor an undefined identity has a connection string in
/// the `EzConnect` grammar.
pub proof fn lemma_ez_connect_absent(
    host: Seq<char>,
    port: nat,
    id: TargetIdView,
    use_instance: Option<Seq<char>>,
)
    requires
        id is Sid || id is NoId,
    ensures
        connection_text(host, port, id, use_instance, ConnectionStringType::EzConnect).is_none(),
{
}

/// The connection string depends on the host, the port, the identity, the
/// override and the grammar, and on nothing else: two targets that agree in
/// these give the same string.
pub proof fn lemma_connection_string_pure(
    a: Target,
    b: Target,
    use_instance: Option<Seq<char>>,
    conn_type: ConnectionStringType,
)
    requires
        a.host@ == b.host@,
        a.port == b.port,
        a.target_id@ == b.target_id@,
    ensures
        connection_text(a.host@, a.port.0 as nat, a.target_id@, use_instance, conn_type)
            == connection_text(b.host@, b.port.0 as nat, b.target_id@, use_instance, conn_type),
{
}

} // verus!
