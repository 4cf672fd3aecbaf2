//! Directory entries: tenant apps, phone numbers and the IP subnets from
//! which a number may be called.

use vstd::prelude::*;

use crate::protocol::SipAuth;

verus! {

/// A tenant application identifier.
#[derive(Debug, PartialEq, Eq, Hash)]
pub struct AppId(String);

impl Clone for AppId {
    fn clone(&self) -> (r: Self)
        ensures
            r == *self,
    {
        AppId(self.0.clone())
    }
}

impl View for AppId {
    type V = Seq<char>;

    closed spec fn view(&self) -> Seq<char> {
        self.0@
    }
}

impl AppId {
    pub fn new(id: String) -> (r: Self)
        ensures
            r@ == id@,
    {
        AppId(id)
    }

    pub fn as_str(&self) -> (r: &str)
        ensures
            r@ == self@,
    {
        self.0.as_str()
    }
}

/// A tenant application and its secret. The root app has the empty id and
/// carries the gateway's root secret.
#[derive(Debug, PartialEq, Eq)]
pub struct AppInfo {
    pub app_id: String,
    pub app_secret: String,
}

impl Clone for AppInfo {
    fn clone(&self) -> (r: Self)
        ensures
            r == *self,
    {
        AppInfo { app_id: self.app_id.clone(), app_secret: self.app_secret.clone() }
    }
}

/// An IP address as plain bits: IPv4 addresses use the low 32 bits.
#[derive(Debug, Clone, Copy, PartialEq, Eq)]
pub struct IpAddress {
    pub bits: u128,
    pub v6: bool,
}

/// An IP prefix from which calls to a number are admitted.
#[derive(Debug, Clone, Copy, PartialEq, Eq)]
pub struct IpSubnet {
    pub base: IpAddress,
    pub prefix_len: u8,
}

/// The address-family width of a subnet's base address.
pub open spec fn subnet_width(net: IpSubnet) -> u8 {
    if net.base.v6 {
        128
    } else {
        32
    }
}

/// A subnet is well formed when its prefix length fits its address family
/// and, for IPv4, the base address fits in 32 bits.
pub open spec fn subnet_wf(net: IpSubnet) -> bool {
    net.prefix_len <= subnet_width(net) && (!net.base.v6 ==> net.base.bits < 0x1_0000_0000)
}

/// Whether `ip` lies inside `net`: same address family, and the first
/// `prefix_len` bits of the addresses agree.
pub open spec fn subnet_contains(net: IpSubnet, ip: IpAddress) -> bool {
    net.base.v6 == ip.v6 && (net.prefix_len == 0 || {
        let shift = subnet_width(net) - net.prefix_len;
        ip.bits >> (shift as u128) == net.base.bits >> (shift as u128)
    })
}

impl IpSubnet {
    /// Whether this subnet is well formed.
    pub fn well_formed(&self) -> (r: bool)
        ensures
            r == subnet_wf(*self),
    {
        let width: u8 = if self.base.v6 {
            128
        } else {
            32
        };
        self.prefix_len <= width && (self.base.v6 || self.base.bits < 0x1_0000_0000)
    }

    /// Whether `ip` lies inside this subnet.
    pub fn contains(&self, ip: &IpAddress) -> (r: bool)
        requires
            subnet_wf(*self),
        ensures
            r == subnet_contains(*self, *ip),
    {
        if self.base.v6 != ip.v6 {
            return false;
        }
        if self.prefix_len == 0 {
            return true;
        }
        let width: u8 = if self.base.v6 {
            128
        } else {
            32
        };
        let shift: u8 = width - self.prefix_len;
        (ip.bits >> (shift as u128)) == (self.base.bits >> (shift as u128))
    }
}

/// How a number's owning app learns of a new call: a pub/sub channel bound
/// to a client id, or a synchronous HTTP hook.
#[derive(Debug, PartialEq, Eq)]
pub enum PhoneNumberRoute {
    Static { client: String },
    Dynamic { hook: String },
}

impl Clone for PhoneNumberRoute {
    fn clone(&self) -> (r: Self)
        ensures
            r == *self,
    {
        match self {
            PhoneNumberRoute::Static { client } => (PhoneNumberRoute::Static {
                client: client.clone(),
            }),
            PhoneNumberRoute::Dynamic { hook } => (PhoneNumberRoute::Dynamic {
                hook: hook.clone(),
            }),
        }
    }
}

/// The body encoding of hook notifications for a number.
#[derive(Debug, Clone, Copy, PartialEq, Eq, Structural)]
pub enum HookContentType {
    Json,
    Protobuf,
}

/// A registered phone number and its admission and notification settings.
#[derive(Debug)]
pub struct PhoneNumber {
    pub number: String,
    pub subnets: Vec<IpSubnet>,
    pub auth: Option<SipAuth>,
    pub app_id: String,
    pub hook: String,
    pub hook_content_type: HookContentType,
    pub route: PhoneNumberRoute,
}

/// The mathematical shape of a phone number: its subnets as a sequence.
pub ghost struct PhoneNumberV {
    pub number: Seq<char>,
    pub subnets: Seq<IpSubnet>,
    pub auth: Option<SipAuth>,
    pub app_id: Seq<char>,
    pub hook: Seq<char>,
    pub hook_content_type: HookContentType,
    pub route: PhoneNumberRoute,
}

impl View for PhoneNumber {
    type V = PhoneNumberV;

    open spec fn view(&self) -> PhoneNumberV {
        PhoneNumberV {
            number: self.number@,
            subnets: self.subnets@,
            auth: self.auth,
            app_id: self.app_id@,
            hook: self.hook@,
            hook_content_type: self.hook_content_type,
            route: self.route,
        }
    }
}

impl DeepView for PhoneNumber {
    type V = PhoneNumberV;

    open spec fn deep_view(&self) -> PhoneNumberV {
        self.view()
    }
}

impl Clone for PhoneNumber {
    fn clone(&self) -> (r: Self)
        ensures
            r@ == self@,
    {
        let mut subnets: Vec<IpSubnet> = Vec::new();
        let mut i: usize = 0;
        while i < self.subnets.len()
            invariant
                i <= self.subnets@.len(),
                subnets@ =~= self.subnets@.take(i as int),
            decreases self.subnets@.len() - i,
        {
            subnets.push(self.subnets[i]);
            i = i + 1;
        }
        proof {
            assert(subnets@ =~= self.subnets@);
        }
        let auth = match &self.auth {
            Some(a) => Some(a.clone()),
            None => None,
        };
        PhoneNumber {
            number: self.number.clone(),
            subnets,
            auth,
            app_id: self.app_id.clone(),
            hook: self.hook.clone(),
            hook_content_type: self.hook_content_type,
            route: self.route.clone(),
        }
    }
}

/// A number is well formed when each of its subnets is.
pub open spec fn phone_number_wf(n: PhoneNumberV) -> bool {
    forall|i: int| 0 <= i < n.subnets.len() ==> subnet_wf(#[trigger] n.subnets[i])
}

/// The payload of a wholesale phone-number sync.
#[derive(Debug, Clone)]
pub struct PhoneNumbersSyncResponse {
    pub numbers: Vec<PhoneNumber>,
}

/// The payload of a wholesale app sync.
#[derive(Debug, Clone)]
pub struct AppsSyncResponse {
    pub apps: Vec<AppInfo>,
}

} // verus!
