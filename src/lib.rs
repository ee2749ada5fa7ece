//! Containerized integration tests for command-line tools: the image recipes, the build-once
//! image cache, the test script protocol and the exit-code policies.
pub mod container_manager;
pub mod dogana_images;
pub mod image_builder;
pub mod image_builder_factory;
pub mod image_name;
pub mod metadata;
pub mod text;
