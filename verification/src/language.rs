//! The interface texts in each language the tool speaks.
use vstd::prelude::*;
use crate::text::{cat, owned, has_prefix, occurs_at};

verus! {

/// User interface language.
#[derive(Clone, Copy, Debug, PartialEq, Eq, Structural)]
pub enum Language {
    Chinese,
    English,
}

impl Language {
    /// Name of the language in that language.
    pub fn display_name(&self) -> (r: &'static str)
        ensures
            r@ == (match *self {
                Language::Chinese => "中文"@,
                Language::English => "English"@,
            }),
    {
        match self {
            Language::Chinese => "中文",
            Language::English => "English",
        }
    }

    /// Every language offered, in menu order.
    pub fn all_languages() -> (r: Vec<Language>)
        ensures
            r@ == seq![Language::Chinese, Language::English],
    {
        let mut v: Vec<Language> = Vec::new();
        v.push(Language::Chinese);
        v.push(Language::English);
        v
    }
}

/// The language a locale name such as `zh_CN.UTF-8` asks for: Chinese for
/// a name that starts with `zh`, English for any other.
pub open spec fn locale_language(locale: Seq<char>) -> Language {
    if occurs_at(locale, 0, "zh"@) {
        Language::Chinese
    } else {
        Language::English
    }
}

/// The language for the system's locale name.
pub fn language_for_locale(locale: &str) -> (r: Language)
    ensures
        r == locale_language(locale@),
{
    if has_prefix(locale, "zh") {
        Language::Chinese
    } else {
        Language::English
    }
}

/// Picks the text for a language.
pub open spec fn pick(lang: Language, zh: Seq<char>, en: Seq<char>) -> Seq<char> {
    match lang {
        Language::Chinese => zh,
        Language::English => en,
    }
}

/// The text for a language out of its two forms.
pub fn pick_text(lang: Language, zh: &'static str, en: &'static str) -> (r: &'static str)
    ensures
        r@ == pick(lang, zh@, en@),
{
    match lang {
        Language::Chinese => zh,
        Language::English => en,
    }
}

/// The interface texts in one language. Each text method returns the
/// text for `language`, as `pick` states.
#[derive(Clone, Copy, Debug)]
pub struct Translations {
    pub language: Language,
}

impl Translations {
    /// Texts in the given language.
    pub fn new(language: Language) -> (r: Translations)
        ensures
            r.language == language,
    {
        Translations { language }
    }

    pub fn menu_file(&self) -> (r: &'static str)
        ensures
            r@ == pick(self.language, "文件"@, "File"@),
    {
        match self.language {
            Language::Chinese => "文件",
            Language::English => "File",
        }
    }

    pub fn menu_settings(&self) -> (r: &'static str)
        ensures
            r@ == pick(self.language, "设置"@, "Settings"@),
    {
        match self.language {
            Language::Chinese => "设置",
            Language::English => "Settings",
        }
    }

    pub fn menu_language(&self) -> (r: &'static str)
        ensures
            r@ == pick(self.language, "语言"@, "Language"@),
    {
        match self.language {
            Language::Chinese => "语言",
            Language::English => "Language",
        }
    }

    pub fn menu_help(&self) -> (r: &'static str)
        ensures
            r@ == pick(self.language, "帮助"@, "Help"@),
    {
        match self.language {
            Language::Chinese => "帮助",
            Language::English => "Help",
        }
    }

    pub fn new_project(&self) -> (r: &'static str)
        ensures
            r@ == pick(self.language, "新建项目"@, "New Project"@),
    {
        match self.language {
            Language::Chinese => "新建项目",
            Language::English => "New Project",
        }
    }

    pub fn save_project(&self) -> (r: &'static str)
        ensures
            r@ == pick(self.language, "保存项目"@, "Save Project"@),
    {
        match self.language {
            Language::Chinese => "保存项目",
            Language::English => "Save Project",
        }
    }

    pub fn load_project(&self) -> (r: &'static str)
        ensures
            r@ == pick(self.language, "加载项目"@, "Load Project"@),
    {
        match self.language {
            Language::Chinese => "加载项目",
            Language::English => "Load Project",
        }
    }

    pub fn exit(&self) -> (r: &'static str)
        ensures
            r@ == pick(self.language, "退出"@, "Exit"@),
    {
        match self.language {
            Language::Chinese => "退出",
            Language::English => "Exit",
        }
    }

    pub fn show_advanced_settings(&self) -> (r: &'static str)
        ensures
            r@ == pick(self.language, "显示高级设置"@, "Show Advanced Settings"@),
    {
        match self.language {
            Language::Chinese => "显示高级设置",
            Language::English => "Show Advanced Settings",
        }
    }

    pub fn reset_all_settings(&self) -> (r: &'static str)
        ensures
            r@ == pick(self.language, "重置所有设置"@, "Reset All Settings"@),
    {
        match self.language {
            Language::Chinese => "重置所有设置",
            Language::English => "Reset All Settings",
        }
    }

    pub fn toggle_dark_mode(&self) -> (r: &'static str)
        ensures
            r@ == pick(self.language, "切换深色模式"@, "Toggle Dark Mode"@),
    {
        match self.language {
            Language::Chinese => "切换深色模式",
            Language::English => "Toggle Dark Mode",
        }
    }

    pub fn dark_mode(&self) -> (r: &'static str)
        ensures
            r@ == pick(self.language, "深色模式"@, "Dark Mode"@),
    {
        match self.language {
            Language::Chinese => "深色模式",
            Language::English => "Dark Mode",
        }
    }

    pub fn light_mode(&self) -> (r: &'static str)
        ensures
            r@ == pick(self.language, "浅色模式"@, "Light Mode"@),
    {
        match self.language {
            Language::Chinese => "浅色模式",
            Language::English => "Light Mode",
        }
    }

    pub fn about(&self) -> (r: &'static str)
        ensures
            r@ == pick(self.language, "关于"@, "About"@),
    {
        match self.language {
            Language::Chinese => "关于",
            Language::English => "About",
        }
    }

    pub fn active_tasks(&self) -> (r: &'static str)
        ensures
            r@ == pick(self.language, "活跃任务"@, "Active Tasks"@),
    {
        match self.language {
            Language::Chinese => "活跃任务",
            Language::English => "Active Tasks",
        }
    }

    pub fn total_tasks(&self) -> (r: &'static str)
        ensures
            r@ == pick(self.language, "总任务"@, "Total Tasks"@),
    {
        match self.language {
            Language::Chinese => "总任务",
            Language::English => "Total Tasks",
        }
    }

    pub fn clear_completed_tasks(&self) -> (r: &'static str)
        ensures
            r@ == pick(self.language, "清空已完成任务"@, "Clear Completed Tasks"@),
    {
        match self.language {
            Language::Chinese => "清空已完成任务",
            Language::English => "Clear Completed Tasks",
        }
    }

    pub fn select_operation_type(&self) -> (r: &'static str)
        ensures
            r@ == pick(self.language, "选择操作类型"@, "Select Operation Type"@),
    {
        match self.language {
            Language::Chinese => "选择操作类型",
            Language::English => "Select Operation Type",
        }
    }

    pub fn video_processing(&self) -> (r: &'static str)
        ensures
            r@ == pick(self.language, "视频处理"@, "Video Processing"@),
    {
        match self.language {
            Language::Chinese => "视频处理",
            Language::English => "Video Processing",
        }
    }

    pub fn audio_processing(&self) -> (r: &'static str)
        ensures
            r@ == pick(self.language, "音频处理"@, "Audio Processing"@),
    {
        match self.language {
            Language::Chinese => "音频处理",
            Language::English => "Audio Processing",
        }
    }

    pub fn video_audio_operations(&self) -> (r: &'static str)
        ensures
            r@ == pick(self.language, "音视频操作"@, "Video/Audio Operations"@),
    {
        match self.language {
            Language::Chinese => "音视频操作",
            Language::English => "Video/Audio Operations",
        }
    }

    pub fn batch_processing(&self) -> (r: &'static str)
        ensures
            r@ == pick(self.language, "批量处理"@, "Batch Processing"@),
    {
        match self.language {
            Language::Chinese => "批量处理",
            Language::English => "Batch Processing",
        }
    }

    pub fn advanced_features(&self) -> (r: &'static str)
        ensures
            r@ == pick(self.language, "高级功能"@, "Advanced Features"@),
    {
        match self.language {
            Language::Chinese => "高级功能",
            Language::English => "Advanced Features",
        }
    }

    pub fn video_convert(&self) -> (r: &'static str)
        ensures
            r@ == pick(self.language, "视频格式转换"@, "Video Format Conversion"@),
    {
        match self.language {
            Language::Chinese => "视频格式转换",
            Language::English => "Video Format Conversion",
        }
    }

    pub fn video_compress(&self) -> (r: &'static str)
        ensures
            r@ == pick(self.language, "视频压缩"@, "Video Compression"@),
    {
        match self.language {
            Language::Chinese => "视频压缩",
            Language::English => "Video Compression",
        }
    }

    pub fn video_resize(&self) -> (r: &'static str)
        ensures
            r@ == pick(self.language, "视频缩放"@, "Video Resize"@),
    {
        match self.language {
            Language::Chinese => "视频缩放",
            Language::English => "Video Resize",
        }
    }

    pub fn video_crop(&self) -> (r: &'static str)
        ensures
            r@ == pick(self.language, "视频裁剪"@, "Video Crop"@),
    {
        match self.language {
            Language::Chinese => "视频裁剪",
            Language::English => "Video Crop",
        }
    }

    pub fn video_rotate(&self) -> (r: &'static str)
        ensures
            r@ == pick(self.language, "视频旋转"@, "Video Rotate"@),
    {
        match self.language {
            Language::Chinese => "视频旋转",
            Language::English => "Video Rotate",
        }
    }

    pub fn video_filter(&self) -> (r: &'static str)
        ensures
            r@ == pick(self.language, "视频滤镜"@, "Video Filter"@),
    {
        match self.language {
            Language::Chinese => "视频滤镜",
            Language::English => "Video Filter",
        }
    }

    pub fn audio_convert(&self) -> (r: &'static str)
        ensures
            r@ == pick(self.language, "音频格式转换"@, "Audio Format Conversion"@),
    {
        match self.language {
            Language::Chinese => "音频格式转换",
            Language::English => "Audio Format Conversion",
        }
    }

    pub fn audio_compress(&self) -> (r: &'static str)
        ensures
            r@ == pick(self.language, "音频压缩"@, "Audio Compression"@),
    {
        match self.language {
            Language::Chinese => "音频压缩",
            Language::English => "Audio Compression",
        }
    }

    pub fn audio_resample(&self) -> (r: &'static str)
        ensures
            r@ == pick(self.language, "音频重采样"@, "Audio Resample"@),
    {
        match self.language {
            Language::Chinese => "音频重采样",
            Language::English => "Audio Resample",
        }
    }

    pub fn audio_volume(&self) -> (r: &'static str)
        ensures
            r@ == pick(self.language, "音量调整"@, "Volume Adjustment"@),
    {
        match self.language {
            Language::Chinese => "音量调整",
            Language::English => "Volume Adjustment",
        }
    }

    pub fn audio_trim(&self) -> (r: &'static str)
        ensures
            r@ == pick(self.language, "音频裁剪"@, "Audio Trim"@),
    {
        match self.language {
            Language::Chinese => "音频裁剪",
            Language::English => "Audio Trim",
        }
    }

    pub fn audio_merge(&self) -> (r: &'static str)
        ensures
            r@ == pick(self.language, "音频合并"@, "Audio Merge"@),
    {
        match self.language {
            Language::Chinese => "音频合并",
            Language::English => "Audio Merge",
        }
    }

    pub fn video_audio_merge(&self) -> (r: &'static str)
        ensures
            r@ == pick(self.language, "音视频合成"@, "Video/Audio Merge"@),
    {
        match self.language {
            Language::Chinese => "音视频合成",
            Language::English => "Video/Audio Merge",
        }
    }

    pub fn video_audio_split(&self) -> (r: &'static str)
        ensures
            r@ == pick(self.language, "音视频分离"@, "Video/Audio Split"@),
    {
        match self.language {
            Language::Chinese => "音视频分离",
            Language::English => "Video/Audio Split",
        }
    }

    pub fn extract_audio(&self) -> (r: &'static str)
        ensures
            r@ == pick(self.language, "提取音频"@, "Extract Audio"@),
    {
        match self.language {
            Language::Chinese => "提取音频",
            Language::English => "Extract Audio",
        }
    }

    pub fn extract_video(&self) -> (r: &'static str)
        ensures
            r@ == pick(self.language, "提取视频"@, "Extract Video"@),
    {
        match self.language {
            Language::Chinese => "提取视频",
            Language::English => "Extract Video",
        }
    }

    pub fn batch_convert(&self) -> (r: &'static str)
        ensures
            r@ == pick(self.language, "批量转换"@, "Batch Convert"@),
    {
        match self.language {
            Language::Chinese => "批量转换",
            Language::English => "Batch Convert",
        }
    }

    pub fn add_subtitle(&self) -> (r: &'static str)
        ensures
            r@ == pick(self.language, "添加字幕"@, "Add Subtitle"@),
    {
        match self.language {
            Language::Chinese => "添加字幕",
            Language::English => "Add Subtitle",
        }
    }

    pub fn add_watermark(&self) -> (r: &'static str)
        ensures
            r@ == pick(self.language, "添加水印"@, "Add Watermark"@),
    {
        match self.language {
            Language::Chinese => "添加水印",
            Language::English => "Add Watermark",
        }
    }

    pub fn frame_extract(&self) -> (r: &'static str)
        ensures
            r@ == pick(self.language, "提取帧"@, "Extract Frames"@),
    {
        match self.language {
            Language::Chinese => "提取帧",
            Language::English => "Extract Frames",
        }
    }

    pub fn input_file(&self) -> (r: &'static str)
        ensures
            r@ == pick(self.language, "输入文件"@, "Input File"@),
    {
        match self.language {
            Language::Chinese => "输入文件",
            Language::English => "Input File",
        }
    }

    pub fn output_file(&self) -> (r: &'static str)
        ensures
            r@ == pick(self.language, "输出文件:"@, "Output File:"@),
    {
        match self.language {
            Language::Chinese => "输出文件:",
            Language::English => "Output File:",
        }
    }

    pub fn select_file(&self) -> (r: &'static str)
        ensures
            r@ == pick(self.language, "选择文件"@, "Select File"@),
    {
        match self.language {
            Language::Chinese => "选择文件",
            Language::English => "Select File",
        }
    }

    pub fn select_location(&self) -> (r: &'static str)
        ensures
            r@ == pick(self.language, "选择位置"@, "Select Location"@),
    {
        match self.language {
            Language::Chinese => "选择位置",
            Language::English => "Select Location",
        }
    }

    pub fn clear(&self) -> (r: &'static str)
        ensures
            r@ == pick(self.language, "清空"@, "Clear"@),
    {
        match self.language {
            Language::Chinese => "清空",
            Language::English => "Clear",
        }
    }

    pub fn drop_file_here(&self) -> (r: &'static str)
        ensures
            r@ == pick(self.language, "拖放文件到这里"@, "Drop file here"@),
    {
        match self.language {
            Language::Chinese => "拖放文件到这里",
            Language::English => "Drop file here",
        }
    }

    pub fn video_settings(&self) -> (r: &'static str)
        ensures
            r@ == pick(self.language, "视频设置"@, "Video Settings"@),
    {
        match self.language {
            Language::Chinese => "视频设置",
            Language::English => "Video Settings",
        }
    }

    pub fn audio_settings(&self) -> (r: &'static str)
        ensures
            r@ == pick(self.language, "音频设置"@, "Audio Settings"@),
    {
        match self.language {
            Language::Chinese => "音频设置",
            Language::English => "Audio Settings",
        }
    }

    pub fn codec(&self) -> (r: &'static str)
        ensures
            r@ == pick(self.language, "编码器"@, "Codec"@),
    {
        match self.language {
            Language::Chinese => "编码器",
            Language::English => "Codec",
        }
    }

    pub fn encoder(&self) -> (r: &'static str)
        ensures
            r@ == pick(self.language, "编码器"@, "Encoder"@),
    {
        match self.language {
            Language::Chinese => "编码器",
            Language::English => "Encoder",
        }
    }

    pub fn preset(&self) -> (r: &'static str)
        ensures
            r@ == pick(self.language, "预设"@, "Preset"@),
    {
        match self.language {
            Language::Chinese => "预设",
            Language::English => "Preset",
        }
    }

    pub fn profile(&self) -> (r: &'static str)
        ensures
            r@ == pick(self.language, "配置文件"@, "Profile"@),
    {
        match self.language {
            Language::Chinese => "配置文件",
            Language::English => "Profile",
        }
    }

    pub fn tune(&self) -> (r: &'static str)
        ensures
            r@ == pick(self.language, "调优"@, "Tune"@),
    {
        match self.language {
            Language::Chinese => "调优",
            Language::English => "Tune",
        }
    }

    pub fn quality(&self) -> (r: &'static str)
        ensures
            r@ == pick(self.language, "质量 (CRF)"@, "Quality (CRF)"@),
    {
        match self.language {
            Language::Chinese => "质量 (CRF)",
            Language::English => "Quality (CRF)",
        }
    }

    pub fn bitrate(&self) -> (r: &'static str)
        ensures
            r@ == pick(self.language, "码率"@, "Bitrate"@),
    {
        match self.language {
            Language::Chinese => "码率",
            Language::English => "Bitrate",
        }
    }

    pub fn framerate(&self) -> (r: &'static str)
        ensures
            r@ == pick(self.language, "帧率"@, "Frame Rate"@),
    {
        match self.language {
            Language::Chinese => "帧率",
            Language::English => "Frame Rate",
        }
    }

    pub fn resolution(&self) -> (r: &'static str)
        ensures
            r@ == pick(self.language, "分辨率"@, "Resolution"@),
    {
        match self.language {
            Language::Chinese => "分辨率",
            Language::English => "Resolution",
        }
    }

    pub fn use_hardware_acceleration(&self) -> (r: &'static str)
        ensures
            r@ == pick(self.language, "使用硬件加速"@, "Use Hardware Acceleration"@),
    {
        match self.language {
            Language::Chinese => "使用硬件加速",
            Language::English => "Use Hardware Acceleration",
        }
    }

    pub fn sample_rate(&self) -> (r: &'static str)
        ensures
            r@ == pick(self.language, "采样率"@, "Sample Rate"@),
    {
        match self.language {
            Language::Chinese => "采样率",
            Language::English => "Sample Rate",
        }
    }

    pub fn channels(&self) -> (r: &'static str)
        ensures
            r@ == pick(self.language, "声道"@, "Channels"@),
    {
        match self.language {
            Language::Chinese => "声道",
            Language::English => "Channels",
        }
    }

    pub fn volume(&self) -> (r: &'static str)
        ensures
            r@ == pick(self.language, "音量"@, "Volume"@),
    {
        match self.language {
            Language::Chinese => "音量",
            Language::English => "Volume",
        }
    }

    pub fn start_processing(&self) -> (r: &'static str)
        ensures
            r@ == pick(self.language, "开始处理"@, "Start Processing"@),
    {
        match self.language {
            Language::Chinese => "开始处理",
            Language::English => "Start Processing",
        }
    }

    pub fn preview_command(&self) -> (r: &'static str)
        ensures
            r@ == pick(self.language, "预览命令"@, "Preview Command"@),
    {
        match self.language {
            Language::Chinese => "预览命令",
            Language::English => "Preview Command",
        }
    }

    pub fn reset_settings(&self) -> (r: &'static str)
        ensures
            r@ == pick(self.language, "重置设置"@, "Reset Settings"@),
    {
        match self.language {
            Language::Chinese => "重置设置",
            Language::English => "Reset Settings",
        }
    }

    pub fn ready(&self) -> (r: &'static str)
        ensures
            r@ == pick(self.language, "就绪"@, "Ready"@),
    {
        match self.language {
            Language::Chinese => "就绪",
            Language::English => "Ready",
        }
    }

    pub fn project_reset(&self) -> (r: &'static str)
        ensures
            r@ == pick(self.language, "项目已重置"@, "Project Reset"@),
    {
        match self.language {
            Language::Chinese => "项目已重置",
            Language::English => "Project Reset",
        }
    }

    pub fn welcome_title(&self) -> (r: &'static str)
        ensures
            r@ == pick(self.language, "欢迎使用 FF GUI"@, "Welcome to FF GUI"@),
    {
        match self.language {
            Language::Chinese => "欢迎使用 FF GUI",
            Language::English => "Welcome to FF GUI",
        }
    }

    pub fn welcome_instruction(&self) -> (r: &'static str)
        ensures
            r@ == pick(self.language, "请从左侧选择要执行的操作类型"@, "Please select an operation type from the left panel"@),
    {
        match self.language {
            Language::Chinese => "请从左侧选择要执行的操作类型",
            Language::English => "Please select an operation type from the left panel",
        }
    }

    pub fn quick_start(&self) -> (r: &'static str)
        ensures
            r@ == pick(self.language, "快速开始:"@, "Quick Start:"@),
    {
        match self.language {
            Language::Chinese => "快速开始:",
            Language::English => "Quick Start:",
        }
    }

    pub fn step1(&self) -> (r: &'static str)
        ensures
            r@ == pick(self.language, "• 选择操作类型"@, "• Select operation type"@),
    {
        match self.language {
            Language::Chinese => "• 选择操作类型",
            Language::English => "• Select operation type",
        }
    }

    pub fn step2(&self) -> (r: &'static str)
        ensures
            r@ == pick(self.language, "• 添加输入文件"@, "• Add input files"@),
    {
        match self.language {
            Language::Chinese => "• 添加输入文件",
            Language::English => "• Add input files",
        }
    }

    pub fn step3(&self) -> (r: &'static str)
        ensures
            r@ == pick(self.language, "• 配置输出设置"@, "• Configure output settings"@),
    {
        match self.language {
            Language::Chinese => "• 配置输出设置",
            Language::English => "• Configure output settings",
        }
    }

    pub fn step4(&self) -> (r: &'static str)
        ensures
            r@ == pick(self.language, "• 开始处理"@, "• Start processing"@),
    {
        match self.language {
            Language::Chinese => "• 开始处理",
            Language::English => "• Start processing",
        }
    }

    pub fn task_list(&self) -> (r: &'static str)
        ensures
            r@ == pick(self.language, "任务列表"@, "Task List"@),
    {
        match self.language {
            Language::Chinese => "任务列表",
            Language::English => "Task List",
        }
    }

    pub fn no_tasks(&self) -> (r: &'static str)
        ensures
            r@ == pick(self.language, "暂无任务"@, "No tasks"@),
    {
        match self.language {
            Language::Chinese => "暂无任务",
            Language::English => "No tasks",
        }
    }

    pub fn task(&self) -> (r: &'static str)
        ensures
            r@ == pick(self.language, "任务"@, "Task"@),
    {
        match self.language {
            Language::Chinese => "任务",
            Language::English => "Task",
        }
    }

    pub fn status(&self) -> (r: &'static str)
        ensures
            r@ == pick(self.language, "状态"@, "Status"@),
    {
        match self.language {
            Language::Chinese => "状态",
            Language::English => "Status",
        }
    }

    pub fn error(&self) -> (r: &'static str)
        ensures
            r@ == pick(self.language, "错误"@, "Error"@),
    {
        match self.language {
            Language::Chinese => "错误",
            Language::English => "Error",
        }
    }

    pub fn cancel(&self) -> (r: &'static str)
        ensures
            r@ == pick(self.language, "取消"@, "Cancel"@),
    {
        match self.language {
            Language::Chinese => "取消",
            Language::English => "Cancel",
        }
    }

    pub fn delete(&self) -> (r: &'static str)
        ensures
            r@ == pick(self.language, "删除"@, "Delete"@),
    {
        match self.language {
            Language::Chinese => "删除",
            Language::English => "Delete",
        }
    }

    pub fn file_info(&self) -> (r: &'static str)
        ensures
            r@ == pick(self.language, "文件信息"@, "File Information"@),
    {
        match self.language {
            Language::Chinese => "文件信息",
            Language::English => "File Information",
        }
    }

    pub fn current_operation(&self, operation_name: &str) -> (r: String)
        ensures
            r@ == pick(self.language, "当前操作: "@, "Current Operation: "@) + operation_name@,
    {
        match self.language {
            Language::Chinese => cat("当前操作: ", operation_name),
            Language::English => cat("Current Operation: ", operation_name),
        }
    }

    pub fn task_added(&self, operation_name: &str) -> (r: String)
        ensures
            r@ == pick(self.language, "已添加任务: "@, "Task added: "@) + operation_name@,
    {
        match self.language {
            Language::Chinese => cat("已添加任务: ", operation_name),
            Language::English => cat("Task added: ", operation_name),
        }
    }

    pub fn smart_recommendations(&self) -> (r: &'static str)
        ensures
            r@ == pick(self.language, "智能推荐"@, "Smart Recommendations"@),
    {
        match self.language {
            Language::Chinese => "智能推荐",
            Language::English => "Smart Recommendations",
        }
    }

    pub fn encoding_presets(&self) -> (r: &'static str)
        ensures
            r@ == pick(self.language, "编码预设"@, "Encoding Presets"@),
    {
        match self.language {
            Language::Chinese => "编码预设",
            Language::English => "Encoding Presets",
        }
    }

    pub fn ffmpeg_command_preview(&self) -> (r: &'static str)
        ensures
            r@ == pick(self.language, "FFmpeg命令预览"@, "FFmpeg Command Preview"@),
    {
        match self.language {
            Language::Chinese => "FFmpeg命令预览",
            Language::English => "FFmpeg Command Preview",
        }
    }

    pub fn copy_command(&self) -> (r: &'static str)
        ensures
            r@ == pick(self.language, "复制命令"@, "Copy Command"@),
    {
        match self.language {
            Language::Chinese => "复制命令",
            Language::English => "Copy Command",
        }
    }

    pub fn command_generated(&self) -> (r: String)
        ensures
            r@ == pick(self.language, "FFmpeg命令已生成，请查看预览区域"@, "FFmpeg command generated, please check preview area"@),
    {
        match self.language {
            Language::Chinese => owned("FFmpeg命令已生成，请查看预览区域"),
            Language::English => owned("FFmpeg command generated, please check preview area"),
        }
    }

    pub fn video_file_required(&self) -> (r: &'static str)
        ensures
            r@ == pick(self.language, "请选择视频文件"@, "Please select a video file"@),
    {
        match self.language {
            Language::Chinese => "请选择视频文件",
            Language::English => "Please select a video file",
        }
    }

    pub fn subtitle_file_required(&self) -> (r: &'static str)
        ensures
            r@ == pick(self.language, "请选择字幕文件"@, "Please select a subtitle file"@),
    {
        match self.language {
            Language::Chinese => "请选择字幕文件",
            Language::English => "Please select a subtitle file",
        }
    }

    pub fn missing_files_for_subtitle(&self) -> (r: &'static str)
        ensures
            r@ == pick(self.language, "添加字幕需要视频文件和字幕文件"@, "Adding subtitles requires both video and subtitle files"@),
    {
        match self.language {
            Language::Chinese => "添加字幕需要视频文件和字幕文件",
            Language::English => "Adding subtitles requires both video and subtitle files",
        }
    }

    pub fn video_selected_subtitle_reminder(&self) -> (r: &'static str)
        ensures
            r@ == pick(self.language, "视频文件已选择。别忘了在下面选择字幕文件。"@, "Video file selected. Don't forget to select a subtitle file below."@),
    {
        match self.language {
            Language::Chinese => "视频文件已选择。别忘了在下面选择字幕文件。",
            Language::English => "Video file selected. Don't forget to select a subtitle file below.",
        }
    }

    pub fn subtitle_file_ready(&self) -> (r: &'static str)
        ensures
            r@ == pick(self.language, "字幕文件准备就绪"@, "Subtitle file ready"@),
    {
        match self.language {
            Language::Chinese => "字幕文件准备就绪",
            Language::English => "Subtitle file ready",
        }
    }

    pub fn watermark_file_required(&self) -> (r: &'static str)
        ensures
            r@ == pick(self.language, "请选择水印图片文件"@, "Please select a watermark image file"@),
    {
        match self.language {
            Language::Chinese => "请选择水印图片文件",
            Language::English => "Please select a watermark image file",
        }
    }

    pub fn watermark_image_ready(&self) -> (r: &'static str)
        ensures
            r@ == pick(self.language, "水印图片准备就绪"@, "Watermark image ready"@),
    {
        match self.language {
            Language::Chinese => "水印图片准备就绪",
            Language::English => "Watermark image ready",
        }
    }

    pub fn command_generation_error(&self) -> (r: &'static str)
        ensures
            r@ == pick(self.language, "生成命令时出错"@, "Error generating command"@),
    {
        match self.language {
            Language::Chinese => "生成命令时出错",
            Language::English => "Error generating command",
        }
    }

    pub fn command_generation_failed(&self) -> (r: String)
        ensures
            r@ == pick(self.language, "命令生成失败"@, "Command generation failed"@),
    {
        match self.language {
            Language::Chinese => owned("命令生成失败"),
            Language::English => owned("Command generation failed"),
        }
    }

    pub fn author(&self) -> (r: &'static str)
        ensures
            r@ == pick(self.language, "作者"@, "Author"@),
    {
        match self.language {
            Language::Chinese => "作者",
            Language::English => "Author",
        }
    }

    pub fn license(&self) -> (r: &'static str)
        ensures
            r@ == pick(self.language, "许可证"@, "License"@),
    {
        match self.language {
            Language::Chinese => "许可证",
            Language::English => "License",
        }
    }

    pub fn built_with_ffmpeg(&self) -> (r: &'static str)
        ensures
            r@ == pick(self.language, "基于 FFmpeg 构建"@, "Built with FFmpeg"@),
    {
        match self.language {
            Language::Chinese => "基于 FFmpeg 构建",
            Language::English => "Built with FFmpeg",
        }
    }

    pub fn developed_with_rust(&self) -> (r: &'static str)
        ensures
            r@ == pick(self.language, "使用 Rust + egui 开发"@, "Developed with Rust + egui"@),
    {
        match self.language {
            Language::Chinese => "使用 Rust + egui 开发",
            Language::English => "Developed with Rust + egui",
        }
    }

    pub fn close(&self) -> (r: &'static str)
        ensures
            r@ == pick(self.language, "关闭"@, "Close"@),
    {
        match self.language {
            Language::Chinese => "关闭",
            Language::English => "Close",
        }
    }

    pub fn input_files_video_audio(&self) -> (r: &'static str)
        ensures
            r@ == pick(self.language, "输入文件 (视频和音频)"@, "Input Files (Video and Audio)"@),
    {
        match self.language {
            Language::Chinese => "输入文件 (视频和音频)",
            Language::English => "Input Files (Video and Audio)",
        }
    }

    pub fn input_audio_files(&self) -> (r: &'static str)
        ensures
            r@ == pick(self.language, "输入音频文件"@, "Input Audio Files"@),
    {
        match self.language {
            Language::Chinese => "输入音频文件",
            Language::English => "Input Audio Files",
        }
    }

    pub fn batch_input_files(&self) -> (r: &'static str)
        ensures
            r@ == pick(self.language, "批量输入文件"@, "Batch Input Files"@),
    {
        match self.language {
            Language::Chinese => "批量输入文件",
            Language::English => "Batch Input Files",
        }
    }

    pub fn input_files(&self) -> (r: &'static str)
        ensures
            r@ == pick(self.language, "输入文件"@, "Input Files"@),
    {
        match self.language {
            Language::Chinese => "输入文件",
            Language::English => "Input Files",
        }
    }

    pub fn select_files(&self) -> (r: &'static str)
        ensures
            r@ == pick(self.language, "选择文件"@, "Select Files"@),
    {
        match self.language {
            Language::Chinese => "选择文件",
            Language::English => "Select Files",
        }
    }

    pub fn drag_drop_hint(&self) -> (r: &'static str)
        ensures
            r@ == pick(self.language, "拖放文件到此处或点击选择文件"@, "Drag files here or click to select"@),
    {
        match self.language {
            Language::Chinese => "拖放文件到此处或点击选择文件",
            Language::English => "Drag files here or click to select",
        }
    }

    pub fn selected_files(&self) -> (r: &'static str)
        ensures
            r@ == pick(self.language, "已选择"@, "Selected"@),
    {
        match self.language {
            Language::Chinese => "已选择",
            Language::English => "Selected",
        }
    }

    pub fn files(&self) -> (r: &'static str)
        ensures
            r@ == pick(self.language, "个文件"@, "files"@),
    {
        match self.language {
            Language::Chinese => "个文件",
            Language::English => "files",
        }
    }

    pub fn all_files(&self) -> (r: &'static str)
        ensures
            r@ == pick(self.language, "所有文件"@, "All Files"@),
    {
        match self.language {
            Language::Chinese => "所有文件",
            Language::English => "All Files",
        }
    }

    pub fn auto_select(&self) -> (r: &'static str)
        ensures
            r@ == pick(self.language, "自动选择"@, "Auto Select"@),
    {
        match self.language {
            Language::Chinese => "自动选择",
            Language::English => "Auto Select",
        }
    }

    pub fn lossless_encoding(&self) -> (r: &'static str)
        ensures
            r@ == pick(self.language, "无损编码 (不支持码率设置)"@, "Lossless encoding (bitrate not applicable)"@),
    {
        match self.language {
            Language::Chinese => "无损编码 (不支持码率设置)",
            Language::English => "Lossless encoding (bitrate not applicable)",
        }
    }

    pub fn vbr_not_supported(&self) -> (r: &'static str)
        ensures
            r@ == pick(self.language, "当前编码器不支持VBR"@, "Current codec doesn't support VBR"@),
    {
        match self.language {
            Language::Chinese => "当前编码器不支持VBR",
            Language::English => "Current codec doesn't support VBR",
        }
    }

    pub fn custom_parameters(&self) -> (r: &'static str)
        ensures
            r@ == pick(self.language, "自定义参数"@, "Custom Parameters"@),
    {
        match self.language {
            Language::Chinese => "自定义参数",
            Language::English => "Custom Parameters",
        }
    }

    pub fn custom(&self) -> (r: &'static str)
        ensures
            r@ == pick(self.language, "自定义:"@, "Custom:"@),
    {
        match self.language {
            Language::Chinese => "自定义:",
            Language::English => "Custom:",
        }
    }

    pub fn vbr_quality(&self) -> (r: &'static str)
        ensures
            r@ == pick(self.language, "VBR质量"@, "VBR Quality"@),
    {
        match self.language {
            Language::Chinese => "VBR质量",
            Language::English => "VBR Quality",
        }
    }

    pub fn width_height(&self) -> (r: &'static str)
        ensures
            r@ == pick(self.language, "宽高"@, "Width/Height"@),
    {
        match self.language {
            Language::Chinese => "宽高",
            Language::English => "Width/Height",
        }
    }

    pub fn maintain_aspect_ratio(&self) -> (r: &'static str)
        ensures
            r@ == pick(self.language, "保持宽高比"@, "Maintain Aspect Ratio"@),
    {
        match self.language {
            Language::Chinese => "保持宽高比",
            Language::English => "Maintain Aspect Ratio",
        }
    }

    pub fn keep_original_quality(&self) -> (r: &'static str)
        ensures
            r@ == pick(self.language, "保持原始质量"@, "Keep Original Quality"@),
    {
        match self.language {
            Language::Chinese => "保持原始质量",
            Language::English => "Keep Original Quality",
        }
    }

    pub fn compression_quality(&self) -> (r: &'static str)
        ensures
            r@ == pick(self.language, "压缩质量"@, "Compression Quality"@),
    {
        match self.language {
            Language::Chinese => "压缩质量",
            Language::English => "Compression Quality",
        }
    }

    pub fn high_quality(&self) -> (r: &'static str)
        ensures
            r@ == pick(self.language, "高质量"@, "High Quality"@),
    {
        match self.language {
            Language::Chinese => "高质量",
            Language::English => "High Quality",
        }
    }

    pub fn large_file(&self) -> (r: &'static str)
        ensures
            r@ == pick(self.language, "大文件"@, "Large File"@),
    {
        match self.language {
            Language::Chinese => "大文件",
            Language::English => "Large File",
        }
    }

    pub fn balanced(&self) -> (r: &'static str)
        ensures
            r@ == pick(self.language, "平衡"@, "Balanced"@),
    {
        match self.language {
            Language::Chinese => "平衡",
            Language::English => "Balanced",
        }
    }

    pub fn high_compression(&self) -> (r: &'static str)
        ensures
            r@ == pick(self.language, "高压缩"@, "High Compression"@),
    {
        match self.language {
            Language::Chinese => "高压缩",
            Language::English => "High Compression",
        }
    }

    pub fn small_file(&self) -> (r: &'static str)
        ensures
            r@ == pick(self.language, "小文件"@, "Small File"@),
    {
        match self.language {
            Language::Chinese => "小文件",
            Language::English => "Small File",
        }
    }

    pub fn width(&self) -> (r: &'static str)
        ensures
            r@ == pick(self.language, "宽:"@, "Width:"@),
    {
        match self.language {
            Language::Chinese => "宽:",
            Language::English => "Width:",
        }
    }

    pub fn custom_width(&self) -> (r: &'static str)
        ensures
            r@ == pick(self.language, "自定义宽度:"@, "Custom Width:"@),
    {
        match self.language {
            Language::Chinese => "自定义宽度:",
            Language::English => "Custom Width:",
        }
    }

    pub fn height(&self) -> (r: &'static str)
        ensures
            r@ == pick(self.language, "高:"@, "Height:"@),
    {
        match self.language {
            Language::Chinese => "高:",
            Language::English => "Height:",
        }
    }

    pub fn keep_original_hint(&self) -> (r: &'static str)
        ensures
            r@ == pick(self.language, "(0表示保持原始)"@, "(0 means keep original)"@),
    {
        match self.language {
            Language::Chinese => "(0表示保持原始)",
            Language::English => "(0 means keep original)",
        }
    }

    pub fn window_title(&self) -> (r: &'static str)
        ensures
            r@ == pick(self.language, "FF GUI - 全功能音视频处理工具"@, "FF GUI - Full-Featured Audio/Video Processing Tool"@),
    {
        match self.language {
            Language::Chinese => "FF GUI - 全功能音视频处理工具",
            Language::English => "FF GUI - Full-Featured Audio/Video Processing Tool",
        }
    }

    pub fn subtitle_file(&self) -> (r: &'static str)
        ensures
            r@ == pick(self.language, "字幕文件:"@, "Subtitle File:"@),
    {
        match self.language {
            Language::Chinese => "字幕文件:",
            Language::English => "Subtitle File:",
        }
    }

    pub fn subtitle_mode(&self) -> (r: &'static str)
        ensures
            r@ == pick(self.language, "字幕模式:"@, "Subtitle Mode:"@),
    {
        match self.language {
            Language::Chinese => "字幕模式:",
            Language::English => "Subtitle Mode:",
        }
    }

    pub fn hard_subtitle(&self) -> (r: &'static str)
        ensures
            r@ == pick(self.language, "硬字幕 (嵌入视频)"@, "Hard Subtitle (Embedded)"@),
    {
        match self.language {
            Language::Chinese => "硬字幕 (嵌入视频)",
            Language::English => "Hard Subtitle (Embedded)",
        }
    }

    pub fn soft_subtitle(&self) -> (r: &'static str)
        ensures
            r@ == pick(self.language, "软字幕 (外挂)"@, "Soft Subtitle (External)"@),
    {
        match self.language {
            Language::Chinese => "软字幕 (外挂)",
            Language::English => "Soft Subtitle (External)",
        }
    }

    pub fn watermark_file(&self) -> (r: &'static str)
        ensures
            r@ == pick(self.language, "水印图片:"@, "Watermark Image:"@),
    {
        match self.language {
            Language::Chinese => "水印图片:",
            Language::English => "Watermark Image:",
        }
    }

    pub fn position(&self) -> (r: &'static str)
        ensures
            r@ == pick(self.language, "位置:"@, "Position:"@),
    {
        match self.language {
            Language::Chinese => "位置:",
            Language::English => "Position:",
        }
    }

    pub fn opacity(&self) -> (r: &'static str)
        ensures
            r@ == pick(self.language, "透明度:"@, "Opacity:"@),
    {
        match self.language {
            Language::Chinese => "透明度:",
            Language::English => "Opacity:",
        }
    }

    pub fn scale(&self) -> (r: &'static str)
        ensures
            r@ == pick(self.language, "缩放:"@, "Scale:"@),
    {
        match self.language {
            Language::Chinese => "缩放:",
            Language::English => "Scale:",
        }
    }

    pub fn extract_mode(&self) -> (r: &'static str)
        ensures
            r@ == pick(self.language, "提取模式:"@, "Extract Mode:"@),
    {
        match self.language {
            Language::Chinese => "提取模式:",
            Language::English => "Extract Mode:",
        }
    }

    pub fn all_frames(&self) -> (r: &'static str)
        ensures
            r@ == pick(self.language, "所有帧"@, "All Frames"@),
    {
        match self.language {
            Language::Chinese => "所有帧",
            Language::English => "All Frames",
        }
    }

    pub fn every_n_frames(&self) -> (r: &'static str)
        ensures
            r@ == pick(self.language, "每N帧"@, "Every N Frames"@),
    {
        match self.language {
            Language::Chinese => "每N帧",
            Language::English => "Every N Frames",
        }
    }

    pub fn time_range(&self) -> (r: &'static str)
        ensures
            r@ == pick(self.language, "时间范围"@, "Time Range"@),
    {
        match self.language {
            Language::Chinese => "时间范围",
            Language::English => "Time Range",
        }
    }

    pub fn frame_interval(&self) -> (r: &'static str)
        ensures
            r@ == pick(self.language, "帧间隔:"@, "Frame Interval:"@),
    {
        match self.language {
            Language::Chinese => "帧间隔:",
            Language::English => "Frame Interval:",
        }
    }

    pub fn start_time(&self) -> (r: &'static str)
        ensures
            r@ == pick(self.language, "开始时间:"@, "Start Time:"@),
    {
        match self.language {
            Language::Chinese => "开始时间:",
            Language::English => "Start Time:",
        }
    }

    pub fn end_time(&self) -> (r: &'static str)
        ensures
            r@ == pick(self.language, "结束时间:"@, "End Time:"@),
    {
        match self.language {
            Language::Chinese => "结束时间:",
            Language::English => "End Time:",
        }
    }

    pub fn output_format(&self) -> (r: &'static str)
        ensures
            r@ == pick(self.language, "输出格式:"@, "Output Format:"@),
    {
        match self.language {
            Language::Chinese => "输出格式:",
            Language::English => "Output Format:",
        }
    }

    pub fn image_quality(&self) -> (r: &'static str)
        ensures
            r@ == pick(self.language, "图片质量:"@, "Image Quality:"@),
    {
        match self.language {
            Language::Chinese => "图片质量:",
            Language::English => "Image Quality:",
        }
    }

    pub fn top_left(&self) -> (r: &'static str)
        ensures
            r@ == pick(self.language, "左上角"@, "Top Left"@),
    {
        match self.language {
            Language::Chinese => "左上角",
            Language::English => "Top Left",
        }
    }

    pub fn top_right(&self) -> (r: &'static str)
        ensures
            r@ == pick(self.language, "右上角"@, "Top Right"@),
    {
        match self.language {
            Language::Chinese => "右上角",
            Language::English => "Top Right",
        }
    }

    pub fn bottom_left(&self) -> (r: &'static str)
        ensures
            r@ == pick(self.language, "左下角"@, "Bottom Left"@),
    {
        match self.language {
            Language::Chinese => "左下角",
            Language::English => "Bottom Left",
        }
    }

    pub fn bottom_right(&self) -> (r: &'static str)
        ensures
            r@ == pick(self.language, "右下角"@, "Bottom Right"@),
    {
        match self.language {
            Language::Chinese => "右下角",
            Language::English => "Bottom Right",
        }
    }

    pub fn center(&self) -> (r: &'static str)
        ensures
            r@ == pick(self.language, "居中"@, "Center"@),
    {
        match self.language {
            Language::Chinese => "居中",
            Language::English => "Center",
        }
    }

    pub fn select_file_button(&self) -> (r: &'static str)
        ensures
            r@ == pick(self.language, "选择文件"@, "Select File"@),
    {
        match self.language {
            Language::Chinese => "选择文件",
            Language::English => "Select File",
        }
    }

    pub fn advanced_users_hint(&self) -> (r: &'static str)
        ensures
            r@ == pick(self.language, "(高级用户可添加额外的FFmpeg参数)"@, "(Advanced users can add extra FFmpeg parameters)"@),
    {
        match self.language {
            Language::Chinese => "(高级用户可添加额外的FFmpeg参数)",
            Language::English => "(Advanced users can add extra FFmpeg parameters)",
        }
    }

    pub fn select_preset_hint(&self) -> (r: &'static str)
        ensures
            r@ == pick(self.language, "选择一个预设快速配置编码参数"@, "Select a preset to quickly configure encoding parameters"@),
    {
        match self.language {
            Language::Chinese => "选择一个预设快速配置编码参数",
            Language::English => "Select a preset to quickly configure encoding parameters",
        }
    }

    pub fn save_current_as_preset(&self) -> (r: &'static str)
        ensures
            r@ == pick(self.language, "保存当前设置为预设"@, "Save Current Settings as Preset"@),
    {
        match self.language {
            Language::Chinese => "保存当前设置为预设",
            Language::English => "Save Current Settings as Preset",
        }
    }

    pub fn load_custom_preset(&self) -> (r: &'static str)
        ensures
            r@ == pick(self.language, "加载自定义预设"@, "Load Custom Preset"@),
    {
        match self.language {
            Language::Chinese => "加载自定义预设",
            Language::English => "Load Custom Preset",
        }
    }

    pub fn format_specific_presets(&self) -> (r: &'static str)
        ensures
            r@ == pick(self.language, "格式特定预设:"@, "Format-specific Presets:"@),
    {
        match self.language {
            Language::Chinese => "格式特定预设:",
            Language::English => "Format-specific Presets:",
        }
    }

    pub fn preset_auto(&self) -> (r: &'static str)
        ensures
            r@ == pick(self.language, "自动"@, "Auto"@),
    {
        match self.language {
            Language::Chinese => "自动",
            Language::English => "Auto",
        }
    }

    pub fn preset_ultrafast(&self) -> (r: &'static str)
        ensures
            r@ == pick(self.language, "极快 (较低质量)"@, "Ultrafast (Lower Quality)"@),
    {
        match self.language {
            Language::Chinese => "极快 (较低质量)",
            Language::English => "Ultrafast (Lower Quality)",
        }
    }

    pub fn preset_superfast(&self) -> (r: &'static str)
        ensures
            r@ == pick(self.language, "超快"@, "Superfast"@),
    {
        match self.language {
            Language::Chinese => "超快",
            Language::English => "Superfast",
        }
    }

    pub fn preset_veryfast(&self) -> (r: &'static str)
        ensures
            r@ == pick(self.language, "很快"@, "Very Fast"@),
    {
        match self.language {
            Language::Chinese => "很快",
            Language::English => "Very Fast",
        }
    }

    pub fn preset_faster(&self) -> (r: &'static str)
        ensures
            r@ == pick(self.language, "更快"@, "Faster"@),
    {
        match self.language {
            Language::Chinese => "更快",
            Language::English => "Faster",
        }
    }

    pub fn preset_fast(&self) -> (r: &'static str)
        ensures
            r@ == pick(self.language, "快"@, "Fast"@),
    {
        match self.language {
            Language::Chinese => "快",
            Language::English => "Fast",
        }
    }

    pub fn preset_medium(&self) -> (r: &'static str)
        ensures
            r@ == pick(self.language, "中等 (推荐)"@, "Medium (Recommended)"@),
    {
        match self.language {
            Language::Chinese => "中等 (推荐)",
            Language::English => "Medium (Recommended)",
        }
    }

    pub fn preset_slow(&self) -> (r: &'static str)
        ensures
            r@ == pick(self.language, "慢 (更好质量)"@, "Slow (Better Quality)"@),
    {
        match self.language {
            Language::Chinese => "慢 (更好质量)",
            Language::English => "Slow (Better Quality)",
        }
    }

    pub fn preset_slower(&self) -> (r: &'static str)
        ensures
            r@ == pick(self.language, "更慢"@, "Slower"@),
    {
        match self.language {
            Language::Chinese => "更慢",
            Language::English => "Slower",
        }
    }

    pub fn preset_veryslow(&self) -> (r: &'static str)
        ensures
            r@ == pick(self.language, "很慢 (最佳质量)"@, "Very Slow (Best Quality)"@),
    {
        match self.language {
            Language::Chinese => "很慢 (最佳质量)",
            Language::English => "Very Slow (Best Quality)",
        }
    }

    pub fn profile_baseline(&self) -> (r: &'static str)
        ensures
            r@ == pick(self.language, "Baseline (兼容性最佳)"@, "Baseline (Best Compatibility)"@),
    {
        match self.language {
            Language::Chinese => "Baseline (兼容性最佳)",
            Language::English => "Baseline (Best Compatibility)",
        }
    }

    pub fn profile_main(&self) -> (r: &'static str)
        ensures
            r@ == pick(self.language, "Main (平衡)"@, "Main (Balanced)"@),
    {
        match self.language {
            Language::Chinese => "Main (平衡)",
            Language::English => "Main (Balanced)",
        }
    }

    pub fn profile_high(&self) -> (r: &'static str)
        ensures
            r@ == pick(self.language, "High (质量最佳)"@, "High (Best Quality)"@),
    {
        match self.language {
            Language::Chinese => "High (质量最佳)",
            Language::English => "High (Best Quality)",
        }
    }

    pub fn tune_film(&self) -> (r: &'static str)
        ensures
            r@ == pick(self.language, "电影"@, "Film"@),
    {
        match self.language {
            Language::Chinese => "电影",
            Language::English => "Film",
        }
    }

    pub fn tune_animation(&self) -> (r: &'static str)
        ensures
            r@ == pick(self.language, "动画"@, "Animation"@),
    {
        match self.language {
            Language::Chinese => "动画",
            Language::English => "Animation",
        }
    }

    pub fn tune_grain(&self) -> (r: &'static str)
        ensures
            r@ == pick(self.language, "颗粒感"@, "Grain"@),
    {
        match self.language {
            Language::Chinese => "颗粒感",
            Language::English => "Grain",
        }
    }

    pub fn tune_stillimage(&self) -> (r: &'static str)
        ensures
            r@ == pick(self.language, "静态图像"@, "Still Image"@),
    {
        match self.language {
            Language::Chinese => "静态图像",
            Language::English => "Still Image",
        }
    }

    pub fn tune_psnr(&self) -> (r: &'static str)
        ensures
            r@ == pick(self.language, "PSNR优化"@, "PSNR Optimization"@),
    {
        match self.language {
            Language::Chinese => "PSNR优化",
            Language::English => "PSNR Optimization",
        }
    }

    pub fn tune_ssim(&self) -> (r: &'static str)
        ensures
            r@ == pick(self.language, "SSIM优化"@, "SSIM Optimization"@),
    {
        match self.language {
            Language::Chinese => "SSIM优化",
            Language::English => "SSIM Optimization",
        }
    }

    pub fn tune_fastdecode(&self) -> (r: &'static str)
        ensures
            r@ == pick(self.language, "快速解码"@, "Fast Decode"@),
    {
        match self.language {
            Language::Chinese => "快速解码",
            Language::English => "Fast Decode",
        }
    }

    pub fn tune_zerolatency(&self) -> (r: &'static str)
        ensures
            r@ == pick(self.language, "零延迟"@, "Zero Latency"@),
    {
        match self.language {
            Language::Chinese => "零延迟",
            Language::English => "Zero Latency",
        }
    }

    pub fn codec_auto(&self) -> (r: &'static str)
        ensures
            r@ == pick(self.language, "🎯 自动选择"@, "🎯 Auto Select"@),
    {
        match self.language {
            Language::Chinese => "🎯 自动选择",
            Language::English => "🎯 Auto Select",
        }
    }

    pub fn codec_hardware(&self) -> (r: &'static str)
        ensures
            r@ == pick(self.language, "(硬件)"@, "(Hardware)"@),
    {
        match self.language {
            Language::Chinese => "(硬件)",
            Language::English => "(Hardware)",
        }
    }

    pub fn keep_original(&self) -> (r: &'static str)
        ensures
            r@ == pick(self.language, "(0表示保持原始)"@, "(0 means keep original)"@),
    {
        match self.language {
            Language::Chinese => "(0表示保持原始)",
            Language::English => "(0 means keep original)",
        }
    }

    pub fn sample_rate_44_1(&self) -> (r: &'static str)
        ensures
            r@ == pick(self.language, "44.1 kHz (标准)"@, "44.1 kHz (Standard)"@),
    {
        match self.language {
            Language::Chinese => "44.1 kHz (标准)",
            Language::English => "44.1 kHz (Standard)",
        }
    }

    pub fn sample_rate_48(&self) -> (r: &'static str)
        ensures
            r@ == pick(self.language, "48 kHz (推荐)"@, "48 kHz (Recommended)"@),
    {
        match self.language {
            Language::Chinese => "48 kHz (推荐)",
            Language::English => "48 kHz (Recommended)",
        }
    }

    pub fn sample_rate_96(&self) -> (r: &'static str)
        ensures
            r@ == pick(self.language, "💎 96 kHz (专业级)"@, "💎 96 kHz (Professional)"@),
    {
        match self.language {
            Language::Chinese => "💎 96 kHz (专业级)",
            Language::English => "💎 96 kHz (Professional)",
        }
    }

    pub fn high_quality_hint(&self) -> (r: &'static str)
        ensures
            r@ == pick(self.language, "(高质量)"@, "(High Quality)"@),
    {
        match self.language {
            Language::Chinese => "(高质量)",
            Language::English => "(High Quality)",
        }
    }

    pub fn audio_files(&self) -> (r: &'static str)
        ensures
            r@ == pick(self.language, "音频文件"@, "Audio Files"@),
    {
        match self.language {
            Language::Chinese => "音频文件",
            Language::English => "Audio Files",
        }
    }

    pub fn video_files(&self) -> (r: &'static str)
        ensures
            r@ == pick(self.language, "视频文件"@, "Video Files"@),
    {
        match self.language {
            Language::Chinese => "视频文件",
            Language::English => "Video Files",
        }
    }

    pub fn image_files(&self) -> (r: &'static str)
        ensures
            r@ == pick(self.language, "图片文件"@, "Image Files"@),
    {
        match self.language {
            Language::Chinese => "图片文件",
            Language::English => "Image Files",
        }
    }

    pub fn lossless(&self) -> (r: &'static str)
        ensures
            r@ == pick(self.language, "无损"@, "Lossless"@),
    {
        match self.language {
            Language::Chinese => "无损",
            Language::English => "Lossless",
        }
    }

    pub fn copy_stream(&self) -> (r: &'static str)
        ensures
            r@ == pick(self.language, "复制流"@, "Copy Stream"@),
    {
        match self.language {
            Language::Chinese => "复制流",
            Language::English => "Copy Stream",
        }
    }

    pub fn no_reencoding(&self) -> (r: &'static str)
        ensures
            r@ == pick(self.language, "不重编码"@, "No Re-encoding"@),
    {
        match self.language {
            Language::Chinese => "不重编码",
            Language::English => "No Re-encoding",
        }
    }

    pub fn recommended_settings_for(&self) -> (r: &'static str)
        ensures
            r@ == pick(self.language, "基于输出格式"@, "Recommended settings for output format"@),
    {
        match self.language {
            Language::Chinese => "基于输出格式",
            Language::English => "Recommended settings for output format",
        }
    }

    pub fn recommended_settings_suffix(&self) -> (r: &'static str)
        ensures
            r@ == pick(self.language, "的推荐设置"@, ""@),
    {
        match self.language {
            Language::Chinese => "的推荐设置",
            Language::English => "",
        }
    }

    pub fn fast(&self) -> (r: &'static str)
        ensures
            r@ == pick(self.language, "快速"@, "Fast"@),
    {
        match self.language {
            Language::Chinese => "快速",
            Language::English => "Fast",
        }
    }

    pub fn open_source_disclaimer(&self) -> (r: &'static str)
        ensures
            r@ == pick(self.language, "免责声明"@, "Disclaimer"@),
    {
        match self.language {
            Language::Chinese => "免责声明",
            Language::English => "Disclaimer",
        }
    }

    pub fn disclaimer_text(&self) -> (r: &'static str)
        ensures
            r@ == pick(self.language, "本软件按\"原样\"提供，不提供任何明示或暗示的保证。作者不对使用此软件产生的任何损害负责。"@, "This software is provided \"AS IS\" without warranty of any kind. The author is not responsible for any damages resulting from the use of this software."@),
    {
        match self.language {
            Language::Chinese => "本软件按\"原样\"提供，不提供任何明示或暗示的保证。作者不对使用此软件产生的任何损害负责。",
            Language::English => "This software is provided \"AS IS\" without warranty of any kind. The author is not responsible for any damages resulting from the use of this software.",
        }
    }

    pub fn license_notice(&self) -> (r: &'static str)
        ensures
            r@ == pick(self.language, "本软件基于GPL v3.0许可证发布。您可以自由地重新分发和修改它。"@, "This software is released under the GPL v3.0 license. You are free to redistribute and modify it."@),
    {
        match self.language {
            Language::Chinese => "本软件基于GPL v3.0许可证发布。您可以自由地重新分发和修改它。",
            Language::English => "This software is released under the GPL v3.0 license. You are free to redistribute and modify it.",
        }
    }

    pub fn third_party_notice(&self) -> (r: &'static str)
        ensures
            r@ == pick(self.language, "本软件使用FFmpeg库，FFmpeg是其各自所有者的商标。"@, "This software uses the FFmpeg library. FFmpeg is a trademark of its respective owners."@),
    {
        match self.language {
            Language::Chinese => "本软件使用FFmpeg库，FFmpeg是其各自所有者的商标。",
            Language::English => "This software uses the FFmpeg library. FFmpeg is a trademark of its respective owners.",
        }
    }

    pub fn save_project_as(&self) -> (r: &'static str)
        ensures
            r@ == pick(self.language, "另存为..."@, "Save As..."@),
    {
        match self.language {
            Language::Chinese => "另存为...",
            Language::English => "Save As...",
        }
    }

    pub fn load_project_from(&self) -> (r: &'static str)
        ensures
            r@ == pick(self.language, "打开项目..."@, "Open Project..."@),
    {
        match self.language {
            Language::Chinese => "打开项目...",
            Language::English => "Open Project...",
        }
    }

    pub fn project_saved(&self) -> (r: &'static str)
        ensures
            r@ == pick(self.language, "项目已保存"@, "Project saved"@),
    {
        match self.language {
            Language::Chinese => "项目已保存",
            Language::English => "Project saved",
        }
    }

    pub fn project_loaded(&self) -> (r: &'static str)
        ensures
            r@ == pick(self.language, "项目已加载"@, "Project loaded"@),
    {
        match self.language {
            Language::Chinese => "项目已加载",
            Language::English => "Project loaded",
        }
    }

    pub fn save_error(&self) -> (r: &'static str)
        ensures
            r@ == pick(self.language, "保存失败"@, "Save failed"@),
    {
        match self.language {
            Language::Chinese => "保存失败",
            Language::English => "Save failed",
        }
    }

    pub fn load_error(&self) -> (r: &'static str)
        ensures
            r@ == pick(self.language, "加载失败"@, "Load failed"@),
    {
        match self.language {
            Language::Chinese => "加载失败",
            Language::English => "Load failed",
        }
    }

    pub fn video_to_gif(&self) -> (r: &'static str)
        ensures
            r@ == pick(self.language, "视频转GIF"@, "Video to GIF"@),
    {
        match self.language {
            Language::Chinese => "视频转GIF",
            Language::English => "Video to GIF",
        }
    }

    pub fn gif_resize(&self) -> (r: &'static str)
        ensures
            r@ == pick(self.language, "GIF尺寸调整"@, "GIF Resize"@),
    {
        match self.language {
            Language::Chinese => "GIF尺寸调整",
            Language::English => "GIF Resize",
        }
    }

    pub fn font_family(&self) -> (r: &'static str)
        ensures
            r@ == pick(self.language, "字体:"@, "Font:"@),
    {
        match self.language {
            Language::Chinese => "字体:",
            Language::English => "Font:",
        }
    }

    pub fn font_size(&self) -> (r: &'static str)
        ensures
            r@ == pick(self.language, "字体大小:"@, "Font Size:"@),
    {
        match self.language {
            Language::Chinese => "字体大小:",
            Language::English => "Font Size:",
        }
    }

    pub fn font_color(&self) -> (r: &'static str)
        ensures
            r@ == pick(self.language, "字体颜色:"@, "Font Color:"@),
    {
        match self.language {
            Language::Chinese => "字体颜色:",
            Language::English => "Font Color:",
        }
    }

    pub fn outline_color(&self) -> (r: &'static str)
        ensures
            r@ == pick(self.language, "边框颜色:"@, "Outline Color:"@),
    {
        match self.language {
            Language::Chinese => "边框颜色:",
            Language::English => "Outline Color:",
        }
    }

    pub fn background_color(&self) -> (r: &'static str)
        ensures
            r@ == pick(self.language, "背景颜色:"@, "Background Color:"@),
    {
        match self.language {
            Language::Chinese => "背景颜色:",
            Language::English => "Background Color:",
        }
    }

    pub fn alignment(&self) -> (r: &'static str)
        ensures
            r@ == pick(self.language, "对齐方式:"@, "Alignment:"@),
    {
        match self.language {
            Language::Chinese => "对齐方式:",
            Language::English => "Alignment:",
        }
    }

    pub fn gif_settings(&self) -> (r: &'static str)
        ensures
            r@ == pick(self.language, "GIF设置"@, "GIF Settings"@),
    {
        match self.language {
            Language::Chinese => "GIF设置",
            Language::English => "GIF Settings",
        }
    }

    pub fn gif_fps(&self) -> (r: &'static str)
        ensures
            r@ == pick(self.language, "帧率:"@, "Frame Rate:"@),
    {
        match self.language {
            Language::Chinese => "帧率:",
            Language::English => "Frame Rate:",
        }
    }

    pub fn gif_scale(&self) -> (r: &'static str)
        ensures
            r@ == pick(self.language, "缩放比例:"@, "Scale:"@),
    {
        match self.language {
            Language::Chinese => "缩放比例:",
            Language::English => "Scale:",
        }
    }

    pub fn gif_loop(&self) -> (r: &'static str)
        ensures
            r@ == pick(self.language, "循环播放"@, "Loop"@),
    {
        match self.language {
            Language::Chinese => "循环播放",
            Language::English => "Loop",
        }
    }

    pub fn gif_optimize(&self) -> (r: &'static str)
        ensures
            r@ == pick(self.language, "优化文件大小"@, "Optimize Size"@),
    {
        match self.language {
            Language::Chinese => "优化文件大小",
            Language::English => "Optimize Size",
        }
    }

    pub fn gif_dither(&self) -> (r: &'static str)
        ensures
            r@ == pick(self.language, "抖动算法:"@, "Dithering:"@),
    {
        match self.language {
            Language::Chinese => "抖动算法:",
            Language::English => "Dithering:",
        }
    }

    pub fn gif_colors(&self) -> (r: &'static str)
        ensures
            r@ == pick(self.language, "颜色数量:"@, "Color Count:"@),
    {
        match self.language {
            Language::Chinese => "颜色数量:",
            Language::English => "Color Count:",
        }
    }

    pub fn codec_category_h264_family(&self) -> (r: &'static str)
        ensures
            r@ == pick(self.language, "H.264系列"@, "H.264 Family"@),
    {
        match self.language {
            Language::Chinese => "H.264系列",
            Language::English => "H.264 Family",
        }
    }

    pub fn codec_category_h265_family(&self) -> (r: &'static str)
        ensures
            r@ == pick(self.language, "H.265系列"@, "H.265 Family"@),
    {
        match self.language {
            Language::Chinese => "H.265系列",
            Language::English => "H.265 Family",
        }
    }

    pub fn codec_category_vp8vp9_family(&self) -> (r: &'static str)
        ensures
            r@ == pick(self.language, "VP8/VP9系列"@, "VP8/VP9 Family"@),
    {
        match self.language {
            Language::Chinese => "VP8/VP9系列",
            Language::English => "VP8/VP9 Family",
        }
    }

    pub fn codec_category_av1_family(&self) -> (r: &'static str)
        ensures
            r@ == pick(self.language, "AV1系列"@, "AV1 Family"@),
    {
        match self.language {
            Language::Chinese => "AV1系列",
            Language::English => "AV1 Family",
        }
    }

    pub fn codec_category_hardware_encoders(&self) -> (r: &'static str)
        ensures
            r@ == pick(self.language, "硬件编码器"@, "Hardware Encoders"@),
    {
        match self.language {
            Language::Chinese => "硬件编码器",
            Language::English => "Hardware Encoders",
        }
    }

    pub fn codec_category_legacy_video(&self) -> (r: &'static str)
        ensures
            r@ == pick(self.language, "传统视频编码器"@, "Legacy Video Codecs"@),
    {
        match self.language {
            Language::Chinese => "传统视频编码器",
            Language::English => "Legacy Video Codecs",
        }
    }

    pub fn codec_category_high_quality_audio(&self) -> (r: &'static str)
        ensures
            r@ == pick(self.language, "高质量音频"@, "High Quality Audio"@),
    {
        match self.language {
            Language::Chinese => "高质量音频",
            Language::English => "High Quality Audio",
        }
    }

    pub fn codec_category_compressed_audio(&self) -> (r: &'static str)
        ensures
            r@ == pick(self.language, "压缩音频"@, "Compressed Audio"@),
    {
        match self.language {
            Language::Chinese => "压缩音频",
            Language::English => "Compressed Audio",
        }
    }

    pub fn codec_category_lossless_audio(&self) -> (r: &'static str)
        ensures
            r@ == pick(self.language, "无损音频"@, "Lossless Audio"@),
    {
        match self.language {
            Language::Chinese => "无损音频",
            Language::English => "Lossless Audio",
        }
    }

    pub fn codec_category_speech_codecs(&self) -> (r: &'static str)
        ensures
            r@ == pick(self.language, "语音编码器"@, "Speech Codecs"@),
    {
        match self.language {
            Language::Chinese => "语音编码器",
            Language::English => "Speech Codecs",
        }
    }

    pub fn codec_category_legacy_audio(&self) -> (r: &'static str)
        ensures
            r@ == pick(self.language, "传统音频编码器"@, "Legacy Audio Codecs"@),
    {
        match self.language {
            Language::Chinese => "传统音频编码器",
            Language::English => "Legacy Audio Codecs",
        }
    }

    pub fn format_category_modern_video(&self) -> (r: &'static str)
        ensures
            r@ == pick(self.language, "现代视频格式"@, "Modern Video Formats"@),
    {
        match self.language {
            Language::Chinese => "现代视频格式",
            Language::English => "Modern Video Formats",
        }
    }

    pub fn format_category_web_optimized(&self) -> (r: &'static str)
        ensures
            r@ == pick(self.language, "网络优化格式"@, "Web Optimized Formats"@),
    {
        match self.language {
            Language::Chinese => "网络优化格式",
            Language::English => "Web Optimized Formats",
        }
    }

    pub fn format_category_professional(&self) -> (r: &'static str)
        ensures
            r@ == pick(self.language, "专业格式"@, "Professional Formats"@),
    {
        match self.language {
            Language::Chinese => "专业格式",
            Language::English => "Professional Formats",
        }
    }

    pub fn format_category_legacy_video(&self) -> (r: &'static str)
        ensures
            r@ == pick(self.language, "传统视频格式"@, "Legacy Video Formats"@),
    {
        match self.language {
            Language::Chinese => "传统视频格式",
            Language::English => "Legacy Video Formats",
        }
    }

    pub fn format_category_high_quality_audio(&self) -> (r: &'static str)
        ensures
            r@ == pick(self.language, "高质量音频格式"@, "High Quality Audio Formats"@),
    {
        match self.language {
            Language::Chinese => "高质量音频格式",
            Language::English => "High Quality Audio Formats",
        }
    }

    pub fn format_category_compressed_audio(&self) -> (r: &'static str)
        ensures
            r@ == pick(self.language, "压缩音频格式"@, "Compressed Audio Formats"@),
    {
        match self.language {
            Language::Chinese => "压缩音频格式",
            Language::English => "Compressed Audio Formats",
        }
    }

    pub fn format_category_lossless_audio(&self) -> (r: &'static str)
        ensures
            r@ == pick(self.language, "无损音频格式"@, "Lossless Audio Formats"@),
    {
        match self.language {
            Language::Chinese => "无损音频格式",
            Language::English => "Lossless Audio Formats",
        }
    }

    pub fn format_category_specialized(&self) -> (r: &'static str)
        ensures
            r@ == pick(self.language, "专用格式"@, "Specialized Formats"@),
    {
        match self.language {
            Language::Chinese => "专用格式",
            Language::English => "Specialized Formats",
        }
    }

    pub fn auto_recommended(&self) -> (r: &'static str)
        ensures
            r@ == pick(self.language, "🤖 自动 (推荐)"@, "🤖 Auto (Recommended)"@),
    {
        match self.language {
            Language::Chinese => "🤖 自动 (推荐)",
            Language::English => "🤖 Auto (Recommended)",
        }
    }

    pub fn hardware_not_supported(&self) -> (r: &'static str)
        ensures
            r@ == pick(self.language, "硬件不支持"@, "Hardware Not Supported"@),
    {
        match self.language {
            Language::Chinese => "硬件不支持",
            Language::English => "Hardware Not Supported",
        }
    }

    pub fn codec_not_compatible_with_format(&self) -> (r: &'static str)
        ensures
            r@ == pick(self.language, "编码器与格式不兼容"@, "Codec not compatible with format"@),
    {
        match self.language {
            Language::Chinese => "编码器与格式不兼容",
            Language::English => "Codec not compatible with format",
        }
    }
}

} // verus!
