//! Verified versions of the exercises and chapter examples of a Rust study
//! workspace: small string algorithms, parsers, state machines and numeric
//! routines, each with a contract that Verus proves.
use vstd::prelude::*;

pub mod texto;
pub mod ch02_guessing_game;
pub mod ch04_understanding_ownership;
pub mod ch05_using_structs;
pub mod ch06_enums_patterns;
pub mod ch07_managing_projects;
pub mod ch09_error_handling;
pub mod ch10_generics_traits_lifetimes;
pub mod ch11_writing_tests;
pub mod ch12_minigrep;
pub mod ch13_functional_features;
pub mod ch14_cargo_more;
pub mod ch15_smart_pointers;
pub mod ch17_oop_features;
pub mod ch18_patterns_matching;
pub mod ch19_advanced_features;
pub mod ch20_web_server;
pub mod ex01_getting_started;
pub mod ex02_guessing_game;
pub mod ex03_common_concepts;
pub mod ex04_understanding_ownership;
pub mod ex05_using_structs;
pub mod ex06_enums_patterns;
pub mod ex07_managing_projects;
pub mod ex08_common_collections;
pub mod ex09_error_handling;
pub mod ex10_generics_traits_lifetimes;
pub mod ex11_writing_tests;
pub mod ex12_minigrep;
pub mod ex13_functional_features;
pub mod ex14_cargo_more;
pub mod ex15_smart_pointers;
pub mod ex16_fearless_concurrency;
pub mod ex17_oop_features;
pub mod ex18_patterns_matching;
pub mod ex19_advanced_features;

verus! {

} // verus!
