//! Collections and small numeric helpers, each with a verified contract.
//!
//! The two central types are [`indexed_hash_map::IndexedHashMap`], a map whose
//! values sit densely packed in a vector and whose key index stays a
//! bijection with the slots across swap-removals, and
//! [`count_or_more::CountOrMore`], a sequence that never holds fewer than
//! `COUNT` elements, the first `COUNT` of them in an inline array.
mod capacity;
pub mod order;
pub mod retain;
pub mod count_or_more;
pub mod dynamic_array;
pub mod indexed_hash_map;
pub mod indexed_map;
pub mod indexed_set;
pub mod small_map;
pub mod small_set;
pub mod bounded_ints;
pub mod saturate;
pub mod path_segment;
