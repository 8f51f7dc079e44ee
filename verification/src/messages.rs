use vstd::prelude::*;

verus! {

#[derive(Debug)]
pub enum IpAddrKind {
    V4,
    V6,
}

pub struct IpAddr {
    pub kind: IpAddrKind,
    pub address: String,
}

pub enum ConciseIpAddrKind {
    V4(String),
    V6(String),
}

pub enum DifferingTypeIpAddrKind {
    V4(u8, u8, u8, u8),
    V6(String),
}

pub enum Message {
    Quit,
    Move { x: i32, y: i32 },
    Write(String),
    ChangeColor(i32, i32, i32),
}

impl Message {
    pub fn call(&self) {
    }
}

pub fn route(ip_kind: IpAddrKind) {
}

} // verus!
