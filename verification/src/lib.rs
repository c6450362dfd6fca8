//! Finding, reading and driving the fans of a machine.
//!
//! The fans of the motherboard are reached through its SuperIO chip ([`system`]), those of
//! graphics cards through the libraries of their makers ([`nvidia`], [`amd`]). Where the chip
//! cannot be reached, a monitoring service reports the fans ([`wmi`]). The library decides what
//! is asked of ports, drivers and services, and what the answers mean; [`session`] tells how the
//! caller performs what is asked.
pub mod amd;
pub mod board;
pub mod cards;
pub mod daemon;
pub mod driver;
pub mod effects;
pub mod fan;
pub mod fintek;
pub mod guarantees;
pub mod geforce;
pub mod ipc;
pub mod ite;
pub mod monitor;
pub mod nct6687;
pub mod nuvoton;
pub mod nvapi;
pub mod nvidia;
pub mod nvml;
pub mod ports;
pub mod readings;
pub mod sensors;
pub mod session;
pub mod superio;
pub mod system;
pub mod text;
pub mod wmi;
