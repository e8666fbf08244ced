pub mod addresses;
pub mod configuring;
pub mod configuring_laws;
pub mod credentials;
pub mod dhcp_metrics;
pub mod expected_machine;
pub mod expected_machine_data;
pub mod expected_machine_laws;
pub mod exploration;
pub mod exploration_laws;
pub mod exploration_metrics;
pub mod fabric_laws;
pub mod fabric_manager;
pub mod fabric_order_laws;
pub mod forge;
pub mod instrument;
pub mod machine_creator;
pub mod metric_laws;
pub mod mlx_laws;
pub mod order_laws;
pub mod ordered;
pub mod outside;
pub mod resource_store;
pub mod rms_laws;
pub mod rms_node_type;
pub mod scout_metrics;
pub mod scout_mlx_metrics;
pub mod secure_boot;
pub mod site_laws;
pub mod store_laws;
pub mod text;
pub mod text_laws;
