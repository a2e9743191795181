use video_stream::keyframe_index::{FrameType, IndexOptimizationStrategy, KeyframeEntry, KeyframeIndex, SeekResult};
use video_stream::playback::{DropFrameStrategy, Resolution};

#[test]
fn test_keyframe_entry_creation() {
    let entry = KeyframeEntry {
        timestamp_us: 1_500_000,
        file_offset: 1024,
        frame_size: 2048,
        gop_size: 30,
        frame_type: FrameType::I,
    };

    assert_eq!(entry.timestamp_us, 1_500_000);
    assert_eq!(entry.file_offset, 1024);
    assert_eq!(entry.frame_size, 2048);
    assert_eq!(entry.gop_size, 30);
    assert_eq!(entry.frame_type, FrameType::I);
}

#[test]
fn test_keyframe_index_creation() {
    let entries = vec![
        KeyframeEntry { timestamp_us: 0, file_offset: 0, frame_size: 2048, gop_size: 30, frame_type: FrameType::I },
        KeyframeEntry {
            timestamp_us: 1_000_000,
            file_offset: 2048,
            frame_size: 2048,
            gop_size: 30,
            frame_type: FrameType::I,
        },
    ];

    let index = KeyframeIndex {
        entries: entries.clone(),
        total_duration_us: 10_000_000,
        index_precision_us: 33_000,
        memory_optimized: true,
        optimization_strategy: IndexOptimizationStrategy::Adaptive,
        memory_usage: 1024,
    };

    assert_eq!(index.entries.len(), 2);
    assert_eq!(index.total_duration_us, 10_000_000);
    assert_eq!(index.index_precision_us, 33_000);
    assert!(index.memory_optimized);
    assert_eq!(index.optimization_strategy, IndexOptimizationStrategy::Adaptive);
}

#[test]
fn test_seek_result_creation() {
    let keyframe = KeyframeEntry {
        timestamp_us: 1_000_000,
        file_offset: 2048,
        frame_size: 2048,
        gop_size: 30,
        frame_type: FrameType::I,
    };

    let result = SeekResult {
        requested_time_us: 1_500_000,
        actual_time_us: 1_000_000,
        keyframe_offset: 2048,
        precision_achieved: 500_000,
        keyframe_used: keyframe.clone(),
        execution_time_us: 50_000,
    };

    assert_eq!(result.requested_time_us, 1_500_000);
    assert_eq!(result.actual_time_us, 1_000_000);
    assert_eq!(result.precision_achieved, 500_000);
    assert_eq!(result.execution_time_us, 50_000);
}

#[test]
fn test_frame_type_equality() {
    assert_eq!(FrameType::I, FrameType::I);
    assert_eq!(FrameType::P, FrameType::P);
    assert_eq!(FrameType::B, FrameType::B);
    assert_ne!(FrameType::I, FrameType::P);
}

#[test]
fn test_optimization_strategy_equality() {
    assert_eq!(IndexOptimizationStrategy::Full, IndexOptimizationStrategy::Full);
    assert_eq!(IndexOptimizationStrategy::Sparse, IndexOptimizationStrategy::Sparse);
    assert_eq!(IndexOptimizationStrategy::Adaptive, IndexOptimizationStrategy::Adaptive);
    assert_eq!(IndexOptimizationStrategy::Hierarchical, IndexOptimizationStrategy::Hierarchical);
    assert_ne!(IndexOptimizationStrategy::Full, IndexOptimizationStrategy::Sparse);
}

#[test]
fn test_drop_frame_strategy() {
    let strategy1 = DropFrameStrategy::DropNone;
    let strategy2 = DropFrameStrategy::DropNonKeyframes;
    let _strategy3 = DropFrameStrategy::DropByRate(500);
    let _strategy4 = DropFrameStrategy::Adaptive;

    assert_eq!(strategy1, DropFrameStrategy::DropNone);
    assert_eq!(strategy2, DropFrameStrategy::DropNonKeyframes);
    assert_ne!(strategy1, strategy2);
}

#[test]
fn test_resolution_creation() {
    let resolution = Resolution { width: 1920, height: 1080 };

    assert_eq!(resolution.width, 1920);
    assert_eq!(resolution.height, 1080);
}
