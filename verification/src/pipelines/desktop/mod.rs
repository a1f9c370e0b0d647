pub mod desktop_pipeline;
