//! Exact geometry of pie and donut charts.
//!
//! A chart is planned entirely in integers. Every angle is an exact fraction
//! of a revolution and every point is named by the ellipse it lies on and the
//! angle at which it lies there, so the sectors of a chart provably tile the
//! full revolution. Turning the named points into coordinates takes
//! trigonometry and is left to the renderer that consumes the plan.

pub mod angle;
pub mod error;
pub mod laws;
pub mod path;
pub mod pie_chart_config;
pub mod pie_chart;
pub mod pie_chart_data;
