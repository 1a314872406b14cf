pub mod scene;
