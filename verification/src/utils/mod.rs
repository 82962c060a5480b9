pub mod math_utils;
