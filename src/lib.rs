pub mod function_composition;
pub mod functor;
pub mod hkt;
pub mod cat;
