pub mod middleware;
